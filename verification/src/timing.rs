use vstd::prelude::*;

verus! {

/// Nanoseconds in one second; the sub-second part of a span stays below it.
pub const NANOS_PER_SEC: u32 = 1_000_000_000;

/// A non-negative span of time: whole seconds plus a sub-second remainder
/// in nanoseconds. This is the library's own representation of a measured
/// duration, precise to the nanosecond.
#[derive(Clone, Copy, PartialEq, Eq, Structural, Debug)]
pub struct TimeSpan {
    pub secs: u64,
    pub nanos: u32,
}

impl TimeSpan {
    /// A span is well formed when its nanosecond part is a proper
    /// sub-second remainder.
    pub open spec fn wf(&self) -> bool {
        self.nanos < NANOS_PER_SEC
    }

    pub fn new(secs: u64, nanos: u32) -> (r: TimeSpan)
        requires
            nanos < NANOS_PER_SEC,
        ensures
            r.secs == secs,
            r.nanos == nanos,
            r.wf(),
    {
        TimeSpan { secs, nanos }
    }
}

/// The three durations sampled around one child run: wall-clock elapsed
/// time, user-mode CPU time and kernel-mode CPU time. The CPU figures are
/// those of the supervising process itself, which blocks while the child
/// runs; they are sampled directly and are independent of each other.
#[derive(Clone, Copy, PartialEq, Eq, Structural, Debug)]
pub struct Timing {
    pub real: TimeSpan,
    pub user: TimeSpan,
    pub sys: TimeSpan,
}

impl Timing {
    pub open spec fn wf(&self) -> bool {
        self.real.wf() && self.user.wf() && self.sys.wf()
    }

    pub fn new(wall: TimeSpan, user: TimeSpan, sys: TimeSpan) -> (r: Timing)
        requires
            wall.wf(),
            user.wf(),
            sys.wf(),
        ensures
            r.real == wall,
            r.user == user,
            r.sys == sys,
            r.wf(),
    {
        Timing { real: wall, user, sys }
    }
}

} // verus!
