use vstd::prelude::*;

verus! {

/// A track's time base: one timestamp unit lasts `numer / denom` seconds.
#[derive(Clone, Copy, Debug, PartialEq, Eq, Structural)]
pub struct TimeBase {
    pub numer: u32,
    pub denom: u32,
}

impl TimeBase {
    /// A time base can convert in both directions only when both parts are positive.
    pub open spec fn valid(self) -> bool {
        self.numer > 0 && self.denom > 0
    }

    pub fn new(numer: u32, denom: u32) -> (r: Self)
        requires
            numer > 0,
            denom > 0,
        ensures
            r.numer == numer,
            r.denom == denom,
            r.valid(),
    {
        TimeBase { numer, denom }
    }
}

/// Milliseconds elapsed at timestamp `ts`, rounded down.
pub open spec fn ts_to_millis(tb: TimeBase, ts: nat) -> nat {
    ((ts * tb.numer * 1000) / (tb.denom as int)) as nat
}

/// The timestamp reached after `ms` milliseconds, rounded down.
pub open spec fn millis_to_ts(tb: TimeBase, ms: nat) -> nat {
    ((ms * tb.denom) / (tb.numer * 1000 as int)) as nat
}

/// The largest value a `u64` holds.
pub open spec fn u64_cap(x: nat) -> nat {
    if x > u64::MAX {
        u64::MAX as nat
    } else {
        x
    }
}

/// Direction of a skip.
#[derive(Clone, Copy, Debug, PartialEq, Eq, Structural)]
pub enum SkipType {
    Forward,
    Backward,
}

/// The timestamp reached from `ts` by a skip of `ms` milliseconds: forward it
/// saturates at the largest timestamp, backward it saturates at zero.
pub open spec fn skip_target(tb: TimeBase, ts: nat, ms: nat, dir: SkipType) -> nat {
    match dir {
        SkipType::Forward => u64_cap(ts + u64_cap(millis_to_ts(tb, ms))),
        SkipType::Backward => if u64_cap(millis_to_ts(tb, ms)) >= ts {
            0
        } else {
            (ts - u64_cap(millis_to_ts(tb, ms))) as nat
        },
    }
}

/// Converts a timestamp to whole milliseconds, saturating at the largest `u64`.
pub fn timestamp_to_millis(tb: TimeBase, ts: u64) -> (r: u64)
    requires
        tb.valid(),
    ensures
        r as nat == u64_cap(ts_to_millis(tb, ts as nat)),
{
    proof {
        assert((ts as int) * (tb.numer as int) <= u64::MAX * u32::MAX) by (nonlinear_arith)
            requires ts <= u64::MAX, tb.numer <= u32::MAX;
    }
    let part: u128 = (ts as u128) * (tb.numer as u128);
    let prod: u128 = part * 1000u128;
    let q: u128 = prod / (tb.denom as u128);
    if q > u64::MAX as u128 {
        u64::MAX
    } else {
        q as u64
    }
}

/// Converts a span of milliseconds to a count of timestamp units, rounded down and
/// saturating at the largest `u64`.
pub fn millis_to_timestamp(tb: TimeBase, ms: u64) -> (r: u64)
    requires
        tb.valid(),
    ensures
        r as nat == u64_cap(millis_to_ts(tb, ms as nat)),
{
    proof {
        assert((ms as int) * (tb.denom as int) <= u64::MAX * u32::MAX) by (nonlinear_arith)
            requires ms <= u64::MAX, tb.denom <= u32::MAX;
    }
    let prod: u128 = (ms as u128) * (tb.denom as u128);
    let div: u128 = (tb.numer as u128) * 1000u128;
    let q: u128 = prod / div;
    if q > u64::MAX as u128 {
        u64::MAX
    } else {
        q as u64
    }
}

/// A position in a track, kept in the track's native timestamp units.
#[derive(Clone, Copy, Debug, PartialEq, Eq, Structural)]
pub struct TimeMarker {
    ts: u64,
    time_base: TimeBase,
}

impl TimeMarker {
    pub closed spec fn ts(self) -> nat {
        self.ts as nat
    }

    pub closed spec fn time_base(self) -> TimeBase {
        self.time_base
    }

    /// A marker is well formed when its time base can convert.
    pub open spec fn wf(self) -> bool {
        self.time_base().valid()
    }

    /// A marker at the start of a track with time base `time_base`.
    pub fn new(time_base: TimeBase) -> (r: Self)
        requires
            time_base.valid(),
        ensures
            r == TimeMarker::start_of(time_base),
            r.wf(),
            r.ts() == 0,
            r.time_base() == time_base,
    {
        TimeMarker { ts: 0, time_base }
    }

    /// Moves the marker by `millis` milliseconds in direction `dir`; backward it
    /// stops at the start of the track, forward at the largest timestamp.
    pub fn add_time(&mut self, millis: u64, dir: SkipType)
        requires
            old(self).wf(),
        ensures
            final(self).wf(),
            final(self).time_base() == old(self).time_base(),
            final(self).ts() == skip_target(old(self).time_base(), old(self).ts(), millis as nat, dir),
    {
        self.ts = offset_timestamp(self.time_base, self.ts, millis, dir);
    }

    /// The marker at the start of a track with time base `tb`.
    pub closed spec fn start_of(tb: TimeBase) -> TimeMarker {
        TimeMarker { ts: 0, time_base: tb }
    }

    pub proof fn lemma_moved_to(self, ts: u64)
        ensures
            self.moved_to(ts).ts() == ts,
            self.moved_to(ts).time_base() == self.time_base(),
    {
    }

    /// The same marker at timestamp `ts`.
    pub closed spec fn moved_to(self, ts: u64) -> TimeMarker {
        TimeMarker { ts, time_base: self.time_base }
    }

    /// Jumps to the absolute timestamp `ts`.
    pub fn go_to(&mut self, ts: u64)
        ensures
            *final(self) == old(self).moved_to(ts),
            final(self).ts() == ts,
            final(self).time_base() == old(self).time_base(),
    {
        self.ts = ts;
    }

    pub fn get_timestamp(&self) -> (r: u64)
        ensures
            r as nat == self.ts(),
    {
        self.ts
    }

    pub fn get_time_base(&self) -> (r: TimeBase)
        ensures
            r == self.time_base(),
    {
        self.time_base
    }

    /// Elapsed time at the marker, in whole milliseconds.
    pub fn get_time_in_millis(&self) -> (r: u64)
        requires
            self.wf(),
        ensures
            r as nat == u64_cap(ts_to_millis(self.time_base(), self.ts())),
    {
        timestamp_to_millis(self.time_base, self.ts)
    }
}

/// The timestamp reached from `ts` by a skip of `millis` milliseconds in direction `dir`.
pub fn offset_timestamp(tb: TimeBase, ts: u64, millis: u64, dir: SkipType) -> (r: u64)
    requires
        tb.valid(),
    ensures
        r as nat == skip_target(tb, ts as nat, millis as nat, dir),
{
    let step = millis_to_timestamp(tb, millis);
    match dir {
        SkipType::Forward => {
            if step > u64::MAX - ts {
                u64::MAX
            } else {
                ts + step
            }
        },
        SkipType::Backward => {
            if step >= ts {
                0
            } else {
                ts - step
            }
        },
    }
}

} // verus!
