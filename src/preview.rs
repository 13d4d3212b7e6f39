use vstd::prelude::*;
use vstd::arithmetic::div_mod::{lemma_fundamental_div_mod, lemma_fundamental_div_mod_converse};

verus! {

/// Sum of a sequence of integers.
pub open spec fn sum_of(s: Seq<int>) -> int
    decreases s.len(),
{
    if s.len() == 0 {
        0
    } else {
        sum_of(s.drop_last()) + s.last()
    }
}

/// Arithmetic mean of a non-empty sequence, rounded down.
pub open spec fn mean(s: Seq<int>) -> int {
    sum_of(s) / (s.len() as int)
}

/// The values of a sequence of `i32`, as integers.
pub open spec fn ints(s: Seq<i32>) -> Seq<int> {
    s.map_values(|v: i32| v as int)
}

proof fn lemma_ints_push(s: Seq<i32>, x: i32)
    ensures
        ints(s.push(x)) == ints(s).push(x as int),
{
    assert(ints(s.push(x)) =~= ints(s).push(x as int));
}

proof fn lemma_ints_subrange(s: Seq<i32>, a: int, b: int)
    requires
        0 <= a <= b <= s.len(),
    ensures
        ints(s.subrange(a, b)) == ints(s).subrange(a, b),
{
    assert(ints(s.subrange(a, b)) =~= ints(s).subrange(a, b));
}

/// Floor of `s / n` for a positive `n`.
fn div_floor(s: i128, n: i128) -> (r: i128)
    requires
        n > 0,
    ensures
        r == s / n,
{
    if s >= 0 {
        ((s as u128) / (n as u128)) as i128
    } else {
        let a: i128 = -(s + 1);
        let q: i128 = ((a as u128) / (n as u128)) as i128;
        proof {
            lemma_fundamental_div_mod(a as int, n as int);
            let rm = a % n;
            assert(0 <= rm < n);
            assert(s == (-q - 1) * n + (n - rm - 1)) by (nonlinear_arith)
                requires a == n * q + rm, s == -a - 1;
            lemma_fundamental_div_mod_converse(s as int, n as int, -q - 1, n - rm - 1);
        }
        -q - 1
    }
}

/// A mean of values that all lie in `[lo, hi]` lies there too.
proof fn lemma_mean_bounds(s: int, n: int, lo: int, hi: int)
    requires
        n > 0,
        n * lo <= s <= n * hi,
    ensures
        lo <= s / n <= hi,
{
    lemma_fundamental_div_mod(s, n);
    let q = s / n;
    let r = s % n;
    assert(lo <= q) by (nonlinear_arith)
        requires s == n * q + r, 0 <= r < n, n * lo <= s, n > 0;
    assert(q <= hi) by (nonlinear_arith)
        requires s == n * q + r, 0 <= r < n, s <= n * hi, n > 0;
}

/// The mean, rounded down, of `v[start .. start + len]`.
fn mean_of_range(v: &Vec<i32>, start: usize, len: usize) -> (r: i32)
    requires
        len > 0,
        start + len <= v@.len(),
    ensures
        r as int == mean(ints(v@.subrange(start as int, start + len))),
{
    let ghost part = ints(v@.subrange(start as int, start + len));
    let n: usize = v.len();
    let mut sum: i128 = 0;
    let mut j: usize = 0;
    while j < len
        invariant
            j <= len,
            n == v@.len(),
            start + len <= v@.len(),
            part == ints(v@.subrange(start as int, start + len)),
            sum == sum_of(part.subrange(0, j as int)),
            j * i32::MIN <= sum <= j * i32::MAX,
        decreases len - j,
    {
        proof {
            assert(part.subrange(0, j + 1).drop_last() == part.subrange(0, j as int));
        }
        sum = sum + v[start + j] as i128;
        j = j + 1;
    }
    proof {
        assert(part.subrange(0, len as int) == part);
        lemma_mean_bounds(sum as int, len as int, i32::MIN as int, i32::MAX as int);
    }
    div_floor(sum, len as i128) as i32
}

/// `i` whole groups of `c` fit in `len` when `i < len / c`.
proof fn lemma_group_in_bounds(i: int, c: int, len: int)
    requires
        c > 0,
        len >= 0,
        0 <= i < len / c,
    ensures
        i * c + c <= len,
        (len / c) * c <= len,
{
    lemma_fundamental_div_mod(len, c);
    let q = len / c;
    assert(i * c + c <= q * c) by (nonlinear_arith)
        requires i + 1 <= q, c > 0;
    assert(q * c == c * q) by (nonlinear_arith);
}

/// One entry of the preview: an amplitude for the low, mid and high bands. A mono
/// preview holds the same amplitude in all three.
#[derive(Clone, Copy, Debug, PartialEq, Eq, Structural)]
pub struct PreviewSample {
    pub lows: i32,
    pub mids: i32,
    pub highs: i32,
}

impl PreviewSample {
    pub open spec fn mono_spec(v: int) -> PreviewSample {
        PreviewSample { lows: v as i32, mids: v as i32, highs: v as i32 }
    }

    pub open spec fn zero_spec() -> PreviewSample {
        PreviewSample { lows: 0, mids: 0, highs: 0 }
    }

    /// The entry that stands for silence, used to pad reads before the start.
    pub fn zero() -> (r: PreviewSample)
        ensures
            r == PreviewSample::zero_spec(),
    {
        PreviewSample { lows: 0, mids: 0, highs: 0 }
    }

    /// A mono entry: amplitude `v` in every band.
    pub fn mono(v: i32) -> (r: PreviewSample)
        ensures
            r == PreviewSample::mono_spec(v as int),
    {
        PreviewSample { lows: v, mids: v, highs: v }
    }
}

/// One band of a preview entry.
#[derive(Clone, Copy, Debug, PartialEq, Eq, Structural)]
pub enum WaveFormLayer {
    Lows,
    Mids,
    Highs,
}

impl PreviewSample {
    pub open spec fn band_spec(self, layer: WaveFormLayer) -> i32 {
        match layer {
            WaveFormLayer::Lows => self.lows,
            WaveFormLayer::Mids => self.mids,
            WaveFormLayer::Highs => self.highs,
        }
    }

    /// The amplitude of band `layer`.
    pub fn band(&self, layer: WaveFormLayer) -> (r: i32)
        ensures
            r == self.band_spec(layer),
    {
        match layer {
            WaveFormLayer::Lows => self.lows,
            WaveFormLayer::Mids => self.mids,
            WaveFormLayer::Highs => self.highs,
        }
    }
}

/// The amplitudes of band `layer` along `s`.
pub open spec fn band_of(s: Seq<PreviewSample>, layer: WaveFormLayer) -> Seq<int> {
    s.map_values(|p: PreviewSample| p.band_spec(layer) as int)
}

/// The entry whose every band is the mean, rounded down, of that band over `g`.
pub open spec fn group_mean(g: Seq<PreviewSample>) -> PreviewSample {
    PreviewSample {
        lows: mean(band_of(g, WaveFormLayer::Lows)) as i32,
        mids: mean(band_of(g, WaveFormLayer::Mids)) as i32,
        highs: mean(band_of(g, WaveFormLayer::Highs)) as i32,
    }
}

pub open spec fn min_of(a: int, b: int) -> int {
    if a < b {
        a
    } else {
        b
    }
}

/// `width` entries of `e` centred on index `center`. Before the start the window
/// is padded with silence, so that the centre stays in the middle; past the end
/// it is cut short, since that audio has not been analysed yet.
pub open spec fn window_of(e: Seq<PreviewSample>, center: int, width: int) -> Seq<PreviewSample> {
    let half = width / 2;
    if center < half {
        Seq::new((half - center) as nat, |i: int| PreviewSample::zero_spec()) + e.subrange(
            0,
            min_of(e.len() as int, width - (half - center)),
        )
    } else if center - half >= e.len() {
        Seq::empty()
    } else {
        e.subrange(center - half, min_of(e.len() as int, center - half + width))
    }
}

/// Entries of a buffer of `len` per group of an overview of `n` entries:
/// `len / n`, and at least one.
pub open spec fn group_size(len: nat, n: nat) -> nat {
    if n > 0 && len / n >= 1 {
        len / n
    } else {
        1
    }
}

/// The whole of `e` decimated into exactly `n` entries: entry `k` is the mean of
/// the `k`-th group of `group_size` entries, or silence where `e` holds no such group.
pub open spec fn overview_of(e: Seq<PreviewSample>, n: nat) -> Seq<PreviewSample> {
    let g = group_size(e.len(), n);
    Seq::new(
        n,
        |k: int|
            if k * g + g <= e.len() {
                group_mean(e.subrange(k * g, k * g + g))
            } else {
                PreviewSample::zero_spec()
            },
    )
}

/// `a / b` rounded up.
pub open spec fn ceil_div(a: int, b: int) -> int {
    (a + b - 1) / b
}

/// Percent of the track analysed once `frames` frames have gone into the preview:
/// unknown when the track does not declare its length, complete when it declares none.
pub open spec fn progress_of(frames: nat, total: Option<u64>) -> Option<u8> {
    match total {
        None => None,
        Some(t) => if t == 0 {
            Some(100u8)
        } else {
            Some(min_of(100, ceil_div(100 * frames as int, t as int)) as u8)
        },
    }
}

/// The amplitudes of band `layer` in `v[start .. start + len]`.
fn band_values(v: &Vec<PreviewSample>, start: usize, len: usize, layer: WaveFormLayer) -> (r: Vec<
    i32,
>)
    requires
        start + len <= v@.len(),
    ensures
        r@.len() == len,
        ints(r@) == band_of(v@.subrange(start as int, start + len), layer),
{
    let ghost part = v@.subrange(start as int, start + len);
    let n: usize = v.len();
    let mut r: Vec<i32> = Vec::new();
    let mut j: usize = 0;
    while j < len
        invariant
            j <= len,
            n == v@.len(),
            start + len <= v@.len(),
            part == v@.subrange(start as int, start + len),
            r@.len() == j,
            ints(r@) == band_of(part, layer).subrange(0, j as int),
        decreases len - j,
    {
        let x = v[start + j].band(layer);
        proof {
            lemma_ints_push(r@, x);
        }
        r.push(x);
        j = j + 1;
        assert(ints(r@) =~= band_of(part, layer).subrange(0, j as int));
    }
    assert(band_of(part, layer).subrange(0, j as int) =~= band_of(part, layer));
    r
}

/// The mean of each band over `v[start .. start + len]`.
fn group_mean_of(v: &Vec<PreviewSample>, start: usize, len: usize) -> (r: PreviewSample)
    requires
        len > 0,
        start + len <= v@.len(),
    ensures
        r == group_mean(v@.subrange(start as int, start + len)),
{
    let lows = band_values(v, start, len, WaveFormLayer::Lows);
    let mids = band_values(v, start, len, WaveFormLayer::Mids);
    let highs = band_values(v, start, len, WaveFormLayer::Highs);
    proof {
        lemma_ints_subrange(lows@, 0, len as int);
        lemma_ints_subrange(mids@, 0, len as int);
        lemma_ints_subrange(highs@, 0, len as int);
        assert(lows@.subrange(0, len as int) =~= lows@);
        assert(mids@.subrange(0, len as int) =~= mids@);
        assert(highs@.subrange(0, len as int) =~= highs@);
    }
    PreviewSample {
        lows: mean_of_range(&lows, 0, len),
        mids: mean_of_range(&mids, 0, len),
        highs: mean_of_range(&highs, 0, len),
    }
}

/// Per-frame means of interleaved PCM with `channels` channels; a trailing
/// incomplete frame is left out.
pub open spec fn frame_means(frames: Seq<i32>, channels: nat) -> Seq<int> {
    Seq::new(
        frames.len() / channels,
        |i: int| mean(ints(frames.subrange(i * channels, i * channels + channels))),
    )
}

/// One mono entry for each whole chunk of `c` samples of `s`: the chunk's mean.
pub open spec fn chunk_means(s: Seq<int>, c: nat) -> Seq<PreviewSample> {
    Seq::new(s.len() / c, |k: int| PreviewSample::mono_spec(mean(s.subrange(k * c, k * c + c))))
}

/// What is left of `s` after its whole chunks of `c` samples.
pub open spec fn chunk_rest(s: Seq<int>, c: nat) -> Seq<int> {
    s.subrange((s.len() / c) * c as int, s.len() as int)
}

/// A growing, downsampled picture of all audio decoded so far: one entry per
/// `chunk_size` mono frames. Entries, once there, never change or move.
pub struct PreviewBuffer {
    chunk_size: usize,
    total_frames: Option<u64>,
    entries: Vec<PreviewSample>,
    pending: Vec<i32>,
}

impl PreviewBuffer {
    /// The entries appended so far, oldest first.
    pub closed spec fn entries(self) -> Seq<PreviewSample> {
        self.entries@
    }

    /// Mono samples of the chunk under way, not yet a whole chunk.
    pub closed spec fn pending(self) -> Seq<int> {
        ints(self.pending@)
    }

    /// Mono frames collapsed into one entry.
    pub closed spec fn chunk_size(self) -> nat {
        self.chunk_size as nat
    }

    /// Frames of the whole track, where the track declares them.
    pub closed spec fn total_frames(self) -> Option<u64> {
        self.total_frames
    }

    pub open spec fn wf(self) -> bool {
        &&& self.chunk_size() > 0
        &&& self.pending().len() < self.chunk_size()
    }

    /// The mono samples that an append of `frames` works on: those pending, then
    /// the new frames' means.
    pub open spec fn fed(self, frames: Seq<i32>, channels: nat) -> Seq<int> {
        self.pending() + frame_means(frames, channels)
    }

    /// An empty buffer that collapses `chunk_size` mono frames into each entry.
    pub fn new(chunk_size: usize, total_frames: Option<u64>) -> (r: Self)
        requires
            chunk_size > 0,
        ensures
            r.wf(),
            r.chunk_size() == chunk_size,
            r.total_frames() == total_frames,
            r.entries() == Seq::<PreviewSample>::empty(),
            r.pending() == Seq::<int>::empty(),
    {
        let r = PreviewBuffer { chunk_size, total_frames, entries: Vec::new(), pending: Vec::new() };
        assert(ints(r.pending@) =~= Seq::<int>::empty());
        r
    }

    /// Number of entries.
    pub fn len(&self) -> (r: usize)
        ensures
            r == self.entries().len(),
    {
        self.entries.len()
    }

    pub fn get_chunk_size(&self) -> (r: usize)
        ensures
            r == self.chunk_size(),
    {
        self.chunk_size
    }

    /// Appends entries computed elsewhere (one per chunk, for instance split into
    /// bands), after those already there.
    pub fn append_preview_samples(&mut self, samples: &Vec<PreviewSample>)
        requires
            old(self).wf(),
        ensures
            final(self).wf(),
            final(self).chunk_size() == old(self).chunk_size(),
            final(self).total_frames() == old(self).total_frames(),
            final(self).pending() == old(self).pending(),
            final(self).entries() == old(self).entries() + samples@,
    {
        let ghost old_entries = self.entries@;
        let mut i: usize = 0;
        while i < samples.len()
            invariant
                i <= samples@.len(),
                self.chunk_size == old(self).chunk_size,
                self.total_frames == old(self).total_frames,
                self.pending == old(self).pending,
                self.entries@ == old_entries + samples@.subrange(0, i as int),
            decreases samples@.len() - i,
        {
            self.entries.push(samples[i]);
            i = i + 1;
            assert(self.entries@ =~= old_entries + samples@.subrange(0, i as int));
        }
        assert(samples@.subrange(0, i as int) =~= samples@);
    }

    /// `width` entries centred on entry `center_index`: padded with silence before
    /// the start, cut short past the end.
    pub fn read_window(&self, center_index: usize, width: usize) -> (r: Vec<PreviewSample>)
        ensures
            r@ == window_of(self.entries(), center_index as int, width as int),
    {
        let len = self.entries.len();
        let half = width / 2;
        let mut r: Vec<PreviewSample> = Vec::new();
        let mut lo: usize = 0;
        let mut hi: usize = 0;
        if center_index < half {
            let pad = half - center_index;
            let mut i: usize = 0;
            while i < pad
                invariant
                    i <= pad,
                    r@ == Seq::new(i as nat, |j: int| PreviewSample::zero_spec()),
                decreases pad - i,
            {
                r.push(PreviewSample::zero());
                i = i + 1;
                assert(r@ =~= Seq::new(i as nat, |j: int| PreviewSample::zero_spec()));
            }
            hi = if len < width - pad {
                len
            } else {
                width - pad
            };
        } else if center_index - half < len {
            lo = center_index - half;
            hi = if width > len - lo {
                len
            } else {
                lo + width
            };
        }
        let ghost head = r@;
        let mut i: usize = lo;
        while i < hi
            invariant
                lo <= i <= hi,
                hi <= len,
                len == self.entries@.len(),
                r@ == head + self.entries@.subrange(lo as int, i as int),
            decreases hi - i,
        {
            r.push(self.entries[i]);
            i = i + 1;
            assert(r@ =~= head + self.entries@.subrange(lo as int, i as int));
        }
        assert(r@ =~= window_of(self.entries(), center_index as int, width as int));
        r
    }

    /// The whole buffer decimated into exactly `target_size` entries, each the mean
    /// of a group of `len / target_size` entries (of one, where the buffer is
    /// shorter than `target_size`); silence where no whole group is there yet.
    pub fn read_overview(&self, target_size: usize) -> (r: Vec<PreviewSample>)
        ensures
            r@ == overview_of(self.entries(), target_size as nat),
    {
        let len = self.entries.len();
        let g: usize = if target_size > 0 && len / target_size >= 1 {
            len / target_size
        } else {
            1
        };
        let ghost e = self.entries@;
        let ghost ov = overview_of(e, target_size as nat);
        proof {
            if target_size > 0 && len / target_size >= 1 {
                lemma_fundamental_div_mod(len as int, target_size as int);
                let li = len as int;
                let ti = target_size as int;
                assert(g * ti <= li) by (nonlinear_arith)
                    requires
                        li == ti * (li / ti) + li % ti,
                        li % ti >= 0,
                        g == li / ti;
            }
        }
        let mut r: Vec<PreviewSample> = Vec::new();
        let mut k: usize = 0;
        let mut start: usize = 0;
        while k < target_size
            invariant
                k <= target_size,
                len == e.len(),
                e == self.entries@,
                g == group_size(len as nat, target_size as nat),
                g >= 1,
                g == 1 || g * target_size <= len,
                start == k * g,
                ov == overview_of(e, target_size as nat),
                r@ == ov.subrange(0, k as int),
            decreases target_size - k,
        {
            proof {
                assert(start + g <= if g == 1 {
                    target_size as int
                } else {
                    len as int
                }) by (nonlinear_arith)
                    requires
                        start == k * g,
                        k < target_size,
                        g >= 1,
                        g == 1 || g * target_size <= len,
                ;
            }
            let item = if start <= len && g <= len - start {
                group_mean_of(&self.entries, start, g)
            } else {
                PreviewSample::zero()
            };
            r.push(item);
            proof {
                assert(start + g == (k + 1) * g) by (nonlinear_arith)
                    requires start == k * g;
            }
            k = k + 1;
            start = start + g;
            assert(r@ =~= ov.subrange(0, k as int));
        }
        assert(ov.subrange(0, k as int) =~= ov);
        r
    }

    /// Percent of the track analysed: `min(100, ceil(100 * len * chunk_size /
    /// total_frames))`; `None` where the track does not declare its length.
    pub fn progress(&self) -> (r: Option<u8>)
        ensures
            r == progress_of(self.entries().len() * self.chunk_size(), self.total_frames()),
    {
        match self.total_frames {
            None => None,
            Some(t) => {
                if t == 0 {
                    return Some(100u8);
                }
                let len = self.entries.len();
                proof {
                    let li = len as int;
                    let ci = self.chunk_size as int;
                    assert(li * ci <= 0xffff_ffff_ffff_ffff * 0xffff_ffff_ffff_ffffint) by (nonlinear_arith)
                        requires 0 <= li <= 0xffff_ffff_ffff_ffff, 0 <= ci <= 0xffff_ffff_ffff_ffff;
                }
                let frames: u128 = (len as u128) * (self.chunk_size as u128);
                if frames >= t as u128 {
                    proof {
                        let f = frames as int;
                        let ti = t as int;
                        assert(ceil_div(100 * f, ti) >= 100) by (nonlinear_arith)
                            requires f >= ti, ti > 0;
                    }
                    Some(100u8)
                } else {
                    let c: u128 = (100 * frames + (t as u128) - 1) / (t as u128);
                    proof {
                        let f = frames as int;
                        let ti = t as int;
                        assert(ceil_div(100 * f, ti) <= 100) by (nonlinear_arith)
                            requires f < ti, ti > 0;
                        assert(ceil_div(100 * f, ti) >= 0) by (nonlinear_arith)
                            requires f >= 0, ti > 0;
                    }
                    Some(c as u8)
                }
            },
        }
    }

    /// Appends decoded PCM, interleaved over `channels` channels: each frame is
    /// collapsed to the mean of its channels, and each whole chunk of mono frames,
    /// counting those left over from earlier appends, becomes one entry.
    pub fn append(&mut self, frames: &Vec<i32>, channels: usize)
        requires
            old(self).wf(),
            channels > 0,
        ensures
            final(self).wf(),
            final(self).chunk_size() == old(self).chunk_size(),
            final(self).total_frames() == old(self).total_frames(),
            final(self).entries() == old(self).entries() + chunk_means(
                old(self).fed(frames@, channels as nat),
                old(self).chunk_size(),
            ),
            final(self).pending() == chunk_rest(
                old(self).fed(frames@, channels as nat),
                old(self).chunk_size(),
            ),
    {
        let ghost fed = self.fed(frames@, channels as nat);
        let ghost fm = frame_means(frames@, channels as nat);
        let c = self.chunk_size;
        let flen = frames.len();
        // the mono stream: pending samples, then the new frames' means
        let mut mono: Vec<i32> = Vec::new();
        let mut p: usize = 0;
        while p < self.pending.len()
            invariant
                p <= self.pending@.len(),
                mono@ == self.pending@.subrange(0, p as int),
            decreases self.pending@.len() - p,
        {
            mono.push(self.pending[p]);
            p = p + 1;
            assert(mono@ =~= self.pending@.subrange(0, p as int));
        }
        assert(mono@ =~= self.pending@);
        let n_frames = frames.len() / channels;
        let mut i: usize = 0;
        let mut off: usize = 0;
        while i < n_frames
            invariant
                n_frames == frames@.len() / (channels as nat),
                flen == frames@.len(),
                channels > 0,
                i <= n_frames,
                off == i * channels,
                fm == frame_means(frames@, channels as nat),
                ints(mono@) == ints(self.pending@) + fm.subrange(0, i as int),
            decreases n_frames - i,
        {
            proof {
                lemma_group_in_bounds(i as int, channels as int, frames@.len() as int);
            }
            let m = mean_of_range(frames, off, channels);
            proof {
                lemma_ints_push(mono@, m);
                assert(off + channels == (i + 1) * channels) by (nonlinear_arith)
                    requires off == i * channels;
            }
            mono.push(m);
            i = i + 1;
            off = off + channels;
            assert(ints(mono@) =~= ints(self.pending@) + fm.subrange(0, i as int));
        }
        assert(fm.subrange(0, i as int) =~= fm);
        assert(ints(mono@) == fed);
        // whole chunks become entries
        let ghost old_entries = self.entries@;
        let ghost cm = chunk_means(fed, c as nat);
        let mlen = mono.len();
        let n_chunks = mlen / c;
        let mut k: usize = 0;
        let mut start: usize = 0;
        while k < n_chunks
            invariant
                c > 0,
                c == self.chunk_size,
                self.pending == old(self).pending,
                self.total_frames == old(self).total_frames,
                mlen == mono@.len(),
                n_chunks == mono@.len() / (c as nat),
                k <= n_chunks,
                start == k * c,
                ints(mono@) == fed,
                cm == chunk_means(fed, c as nat),
                self.entries@ == old_entries + cm.subrange(0, k as int),
            decreases n_chunks - k,
        {
            proof {
                lemma_group_in_bounds(k as int, c as int, mono@.len() as int);
                lemma_ints_subrange(mono@, start as int, start + c);
                assert(start + c == (k + 1) * c) by (nonlinear_arith)
                    requires start == k * c;
            }
            let m = mean_of_range(&mono, start, c);
            self.entries.push(PreviewSample::mono(m));
            k = k + 1;
            start = start + c;
            assert(self.entries@ =~= old_entries + cm.subrange(0, k as int));
        }
        assert(cm.subrange(0, k as int) =~= cm);
        // the rest waits for the next append
        let mut rest: Vec<i32> = Vec::new();
        let mut q: usize = start;
        proof {
            if n_chunks > 0 {
                lemma_group_in_bounds(n_chunks - 1, c as int, mono@.len() as int);
            }
            lemma_fundamental_div_mod(mono@.len() as int, c as int);
        }
        while q < mono.len()
            invariant
                start <= q <= mono@.len(),
                rest@ == mono@.subrange(start as int, q as int),
            decreases mono@.len() - q,
        {
            rest.push(mono[q]);
            q = q + 1;
            assert(rest@ =~= mono@.subrange(start as int, q as int));
        }
        proof {
            lemma_ints_subrange(mono@, start as int, mono@.len() as int);
        }
        proof {
            assert(start == (fed.len() / (c as nat)) * c) by (nonlinear_arith)
                requires start == n_chunks * c, n_chunks == fed.len() / (c as nat);
            assert(ints(rest@) =~= chunk_rest(fed, c as nat));
            let ml = mono@.len() as int;
            let ci = c as int;
            assert(ml - start < ci) by (nonlinear_arith)
                requires
                    ml == ci * (ml / ci) + ml % ci,
                    ml % ci < ci,
                    start == n_chunks * ci,
                    n_chunks == ml / ci;
        }
        self.pending = rest;
    }
}

/// An append never shortens the buffer and never changes an entry already there.
pub proof fn lemma_append_only(b: PreviewBuffer, frames: Seq<i32>, channels: nat)
    requires
        b.wf(),
        channels > 0,
    ensures
        ({
            let after = b.entries() + chunk_means(b.fed(frames, channels), b.chunk_size());
            &&& after.len() >= b.entries().len()
            &&& forall|i: int| 0 <= i < b.entries().len() ==> after[i] == b.entries()[i]
        }),
{
}

/// Reading the overview twice with no append between gives the same entries.
pub proof fn lemma_overview_idempotent(a: PreviewBuffer, b: PreviewBuffer, n: nat)
    requires
        a.entries() == b.entries(),
    ensures
        overview_of(a.entries(), n) == overview_of(b.entries(), n),
{
}

/// A window whose centre lies less than half a width from the start, over entries
/// that reach its right edge, holds exactly `width` entries, the first
/// `width / 2 - center` of them silence.
pub proof fn lemma_window_padding(e: Seq<PreviewSample>, center: nat, width: nat)
    requires
        center < width / 2,
        e.len() >= width - (width / 2 - center),
    ensures
        window_of(e, center as int, width as int).len() == width,
        forall|i: int|
            0 <= i < width / 2 - center ==> window_of(e, center as int, width as int)[i]
                == PreviewSample::zero_spec(),
{
}

} // verus!
