use vstd::prelude::*;
use crate::preview::{
    chunk_means, chunk_rest, overview_of, progress_of, window_of, PreviewBuffer, PreviewSample,
};
use crate::time::{TimeBase, TimeMarker};

verus! {

/// Preview entries per second of audio where a track declares no packet size.
pub const PREVIEW_SAMPLE_RATE: u32 = 2205;

/// What the decoder declares about a track's audio.
#[derive(Clone, Copy, Debug, PartialEq, Eq, Structural)]
pub struct CodecParams {
    pub sample_rate: Option<u32>,
    pub channels: Option<u32>,
    pub n_frames: Option<u64>,
    pub max_frames_per_packet: Option<u64>,
    pub time_base: Option<TimeBase>,
}

/// Descriptive data about a track.
#[derive(Clone, Copy, Debug, PartialEq, Eq, Structural)]
pub struct TrackMeta {}

impl TrackMeta {
    pub fn new() -> (r: TrackMeta)
        ensures
            r == (TrackMeta {}),
    {
        TrackMeta {}
    }
}

/// The final component of a path, or nothing where the path has none.
pub uninterp spec fn path_file_name(path: Seq<char>) -> Seq<char>;

/// Relies on `std::path::Path::file_name`: the last component of the path, read as
/// text; an empty string where the path ends in `..` or is a root.
#[verifier::external_body]
fn file_name_of(path: &String) -> (r: String)
    ensures
        r@ == path_file_name(path@),
{
    match std::path::Path::new(path).file_name() {
        Some(name) => name.to_string_lossy().into_owned(),
        None => String::new(),
    }
}

/// Mono frames per preview entry for a track with codec parameters `cp`: the
/// declared largest packet, else a second's frames over `PREVIEW_SAMPLE_RATE`,
/// and at least one.
pub open spec fn chunk_size_for(cp: CodecParams) -> nat {
    match cp.max_frames_per_packet {
        Some(n) if 0 < n <= usize::MAX => n as nat,
        _ => match cp.sample_rate {
            Some(sr) if sr / PREVIEW_SAMPLE_RATE >= 1 => (sr / PREVIEW_SAMPLE_RATE) as nat,
            _ => 1,
        },
    }
}

/// The preview entry that audio at timestamp `ts` falls into, where the track
/// declares its sample rate and time base; capped at the largest index.
pub open spec fn entry_index(cp: CodecParams, chunk: nat, ts: nat) -> nat {
    match (cp.sample_rate, cp.time_base) {
        (Some(sr), Some(tb)) => if tb.valid() && chunk > 0 {
            let frames = (ts * tb.numer * sr) / (tb.denom as int);
            let idx = frames / (chunk as int);
            if idx > usize::MAX {
                usize::MAX as nat
            } else {
                idx as nat
            }
        } else {
            0
        },
        _ => 0,
    }
}

/// One track: where it is, what its audio is, and the preview built while it is
/// being decoded.
pub struct Track {
    pub meta: TrackMeta,
    pub file_path: String,
    pub file_name: String,
    pub codec_params: CodecParams,
    pub preview_buffer: PreviewBuffer,
}

impl Track {
    /// The preview is well formed and sized by the track's codec parameters.
    pub open spec fn wf(self) -> bool {
        &&& self.preview_buffer.wf()
        &&& self.preview_buffer.chunk_size() == chunk_size_for(self.codec_params)
        &&& self.preview_buffer.total_frames() == self.codec_params.n_frames
    }

    /// A track with an empty preview.
    pub fn new(file_path: String, codec_params: CodecParams) -> (r: Self)
        ensures
            r.wf(),
            r.file_path == file_path,
            r.file_name@ == path_file_name(file_path@),
            r.codec_params == codec_params,
            r.meta == (TrackMeta {}),
            r.preview_buffer.entries() == Seq::<PreviewSample>::empty(),
            r.preview_buffer.pending() == Seq::<int>::empty(),
    {
        let file_name = file_name_of(&file_path);
        let chunk = preview_chunk_size(&codec_params);
        Track {
            meta: TrackMeta::new(),
            preview_buffer: PreviewBuffer::new(chunk, codec_params.n_frames),
            file_path,
            file_name,
            codec_params,
        }
    }

    /// The preview so far.
    pub fn get_preview_buffer(&self) -> (r: &PreviewBuffer)
        ensures
            *r == self.preview_buffer,
    {
        &self.preview_buffer
    }

    /// Appends decoded PCM, interleaved over `channels` channels, to the preview.
    pub fn append_frames(&mut self, frames: &Vec<i32>, channels: usize)
        requires
            old(self).wf(),
            channels > 0,
        ensures
            final(self).wf(),
            final(self).file_path == old(self).file_path,
            final(self).file_name == old(self).file_name,
            final(self).codec_params == old(self).codec_params,
            final(self).preview_buffer.entries() == old(self).preview_buffer.entries()
                + chunk_means(
                old(self).preview_buffer.fed(frames@, channels as nat),
                old(self).preview_buffer.chunk_size(),
            ),
            final(self).preview_buffer.pending() == chunk_rest(
                old(self).preview_buffer.fed(frames@, channels as nat),
                old(self).preview_buffer.chunk_size(),
            ),
    {
        self.preview_buffer.append(frames, channels);
    }

    /// Appends preview entries computed elsewhere.
    pub fn append_preview_samples(&mut self, preview_samples: &Vec<PreviewSample>)
        requires
            old(self).wf(),
        ensures
            final(self).wf(),
            final(self).file_path == old(self).file_path,
            final(self).file_name == old(self).file_name,
            final(self).codec_params == old(self).codec_params,
            final(self).preview_buffer.entries() == old(self).preview_buffer.entries()
                + preview_samples@,
            final(self).preview_buffer.pending() == old(self).preview_buffer.pending(),
    {
        self.preview_buffer.append_preview_samples(preview_samples);
    }

    /// Percent of the track analysed, where the track declares its length.
    pub fn progress(&self) -> (r: Option<u8>)
        requires
            self.wf(),
        ensures
            r == progress_of(
                self.preview_buffer.entries().len() * chunk_size_for(self.codec_params),
                self.codec_params.n_frames,
            ),
    {
        self.preview_buffer.progress()
    }

    /// `target_size` preview entries centred on the playhead.
    pub fn live_preview(&self, target_size: usize, playhead_position: &TimeMarker) -> (r: Vec<
        PreviewSample,
    >)
        requires
            self.wf(),
        ensures
            r@ == window_of(
                self.preview_buffer.entries(),
                entry_index(
                    self.codec_params,
                    chunk_size_for(self.codec_params),
                    playhead_position.ts(),
                ) as int,
                target_size as int,
            ),
    {
        let center = preview_index(
            &self.codec_params,
            self.preview_buffer.get_chunk_size(),
            playhead_position.get_timestamp(),
        );
        self.preview_buffer.read_window(center, target_size)
    }

    /// The whole track's preview in exactly `target_size` entries.
    pub fn preview(&self, target_size: usize) -> (r: Vec<PreviewSample>)
        ensures
            r@ == overview_of(self.preview_buffer.entries(), target_size as nat),
    {
        self.preview_buffer.read_overview(target_size)
    }
}

/// Mono frames per preview entry for a track with codec parameters `cp`.
pub fn preview_chunk_size(cp: &CodecParams) -> (r: usize)
    ensures
        r == chunk_size_for(*cp),
        r > 0,
{
    match cp.max_frames_per_packet {
        Some(n) if 0 < n && n <= usize::MAX as u64 => n as usize,
        _ => match cp.sample_rate {
            Some(sr) if sr / PREVIEW_SAMPLE_RATE >= 1 => (sr / PREVIEW_SAMPLE_RATE) as usize,
            _ => 1,
        },
    }
}

/// The preview entry that audio at timestamp `ts` falls into.
pub fn preview_index(cp: &CodecParams, chunk: usize, ts: u64) -> (r: usize)
    ensures
        r == entry_index(*cp, chunk as nat, ts as nat),
{
    match (cp.sample_rate, cp.time_base) {
        (Some(sr), Some(tb)) => {
            if tb.numer == 0 || tb.denom == 0 || chunk == 0 {
                return 0;
            }
            proof {
                assert((ts as int) * (tb.numer as int) <= 0xffff_ffff_ffff_ffff * 0xffff_ffffint)
                    by (nonlinear_arith)
                    requires ts <= 0xffff_ffff_ffff_ffffu64, tb.numer <= 0xffff_ffffu32;
                assert((ts as int) * (tb.numer as int) * (sr as int) <= 0xffff_ffff_ffff_ffff
                    * 0xffff_ffffint * 0xffff_ffffint) by (nonlinear_arith)
                    requires
                        (ts as int) * (tb.numer as int) <= 0xffff_ffff_ffff_ffff * 0xffff_ffffint,
                        0 <= sr <= 0xffff_ffffu32,
                        (ts as int) * (tb.numer as int) >= 0,
                ;
            }
            let a: u128 = (ts as u128) * (tb.numer as u128);
            let b: u128 = a * (sr as u128);
            let frames: u128 = b / (tb.denom as u128);
            let idx: u128 = frames / (chunk as u128);
            if idx > usize::MAX as u128 {
                usize::MAX
            } else {
                idx as usize
            }
        },
        _ => 0,
    }
}

} // verus!
