use vstd::prelude::*;

verus! {

/// A sample shown by the wave view, on the scale of 16-bit PCM.
pub type Sample = i32;

/// A rise between two samples larger than this counts as a transient (0.6 of full
/// scale).
pub const TRANSIENT_THRESHOLD: i32 = 19661;

/// The list of files found, which of them has the focus, and whether the list
/// itself has it.
pub struct FileListWidget {
    pub files: Vec<String>,
    pub focused: bool,
    pub focused_track: Option<String>,
}

impl FileListWidget {
    pub fn new(tracks: Vec<String>, focused: bool, focused_track: Option<String>) -> (r: Self)
        ensures
            r.files == tracks,
            r.focused == focused,
            r.focused_track == focused_track,
    {
        FileListWidget { files: tracks, focused, focused_track }
    }
}

/// The colour of a line of the wave view.
#[derive(Clone, Copy, Debug, PartialEq, Eq, Structural)]
pub enum WaveColor {
    /// A transient.
    Red,
    Green,
}

/// The colour for a step from `prev` to `curr`.
pub open spec fn color_of(prev: int, curr: int) -> WaveColor {
    if curr - prev > TRANSIENT_THRESHOLD {
        WaveColor::Red
    } else {
        WaveColor::Green
    }
}

/// The last `old.len()` samples of `old` followed by `data`.
pub open spec fn latest(old: Seq<Sample>, data: Seq<Sample>) -> Seq<Sample> {
    (old + data).subrange(data.len() as int, (old.len() + data.len()) as int)
}

/// A fixed-length window over the latest samples, for display.
#[derive(Clone, Debug)]
pub struct DataBuffer {
    buffer: Vec<Sample>,
}

impl DataBuffer {
    pub closed spec fn samples(self) -> Seq<Sample> {
        self.buffer@
    }

    /// A buffer of `len` silent samples.
    pub fn new(len: usize) -> (r: DataBuffer)
        ensures
            r.samples() == Seq::new(len as nat, |i: int| 0i32),
    {
        let mut buffer: Vec<Sample> = Vec::new();
        let mut i: usize = 0;
        while i < len
            invariant
                i <= len,
                buffer@ == Seq::new(i as nat, |j: int| 0i32),
            decreases len - i,
        {
            buffer.push(0);
            i = i + 1;
            assert(buffer@ =~= Seq::new(i as nat, |j: int| 0i32));
        }
        DataBuffer { buffer }
    }

    /// Pushes `buf_data` in at the end; the oldest samples drop out, and the length
    /// stays the same.
    pub fn push_latest_data(&mut self, buf_data: Vec<Sample>)
        ensures
            final(self).samples() == latest(old(self).samples(), buf_data@),
    {
        let n = self.buffer.len();
        let m = buf_data.len();
        let mut out: Vec<Sample> = Vec::new();
        let mut i: usize = 0;
        let ghost all = self.buffer@ + buf_data@;
        while i < n
            invariant
                i <= n,
                n == self.buffer@.len(),
                m == buf_data@.len(),
                all == self.buffer@ + buf_data@,
                out@ == all.subrange(m as int, m + i),
            decreases n - i,
        {
            let x = if m < n && i < n - m {
                self.buffer[m + i]
            } else if m < n {
                buf_data[i - (n - m)]
            } else {
                buf_data[(m - n) + i]
            };
            out.push(x);
            i = i + 1;
            assert(out@ =~= all.subrange(m as int, m + i));
        }
        self.buffer = out;
    }

    /// Returns the length of the buffer.
    pub fn len(&self) -> (r: usize)
        ensures
            r == self.samples().len(),
    {
        self.buffer.len()
    }

    /// The samples, oldest first.
    pub fn values(&self) -> (r: &Vec<Sample>)
        ensures
            r@ == self.samples(),
    {
        &self.buffer
    }
}

/// The wave view over a buffer of the latest samples.
pub struct WaveWidget {
    pub preview_buf: DataBuffer,
}

impl WaveWidget {
    pub fn new(preview_buf: DataBuffer) -> (r: Self)
        ensures
            r.preview_buf.samples() == preview_buf.samples(),
    {
        WaveWidget { preview_buf }
    }

    /// Red for a transient, a rise from `prev` to `curr` larger than
    /// `TRANSIENT_THRESHOLD`; green otherwise.
    pub fn get_col(&self, prev: Sample, curr: Sample) -> (r: WaveColor)
        ensures
            r == color_of(prev as int, curr as int),
    {
        let diff: i64 = curr as i64 - prev as i64;
        if diff > TRANSIENT_THRESHOLD as i64 {
            WaveColor::Red
        } else {
            WaveColor::Green
        }
    }
}

} // verus!
