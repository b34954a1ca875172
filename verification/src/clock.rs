use vstd::prelude::*;

verus! {

/// A wall-clock snapshot, in whole seconds since a fixed origin. Two snapshots
/// are only ever compared by taking the span between them.
#[derive(Clone, Copy, Debug)]
pub struct TimePoint {
    secs: u64,
}

impl View for TimePoint {
    type V = nat;

    closed spec fn view(&self) -> nat {
        self.secs as nat
    }
}

/// The span from `earlier` to `later` in seconds, where both are given as
/// seconds since the origin. A clock that moved backward counts as no time
/// passed.
pub open spec fn span(earlier: nat, later: nat) -> nat {
    if later >= earlier {
        (later - earlier) as nat
    } else {
        0
    }
}

/// Reads the system clock through `instant::SystemTime::now` and gives the
/// whole seconds since the Unix epoch, or 0 where the clock stands before it.
/// Nothing is claimed of the value: each reading may differ from the last.
#[verifier::external_body]
fn wall_clock_secs() -> u64 {
    match instant::SystemTime::now().duration_since(instant::SystemTime::UNIX_EPOCH) {
        Ok(since_epoch) => since_epoch.as_secs(),
        Err(_) => 0,
    }
}

impl TimePoint {
    /// The snapshot taken `secs` seconds after the origin.
    pub fn from_secs(secs: u64) -> (t: TimePoint)
        ensures
            t@ == secs,
    {
        TimePoint { secs }
    }

    /// Seconds between the origin and this snapshot.
    pub fn as_secs(&self) -> (secs: u64)
        ensures
            secs == self@,
    {
        self.secs
    }

    /// The current reading of the wall clock.
    pub fn now() -> TimePoint {
        TimePoint { secs: wall_clock_secs() }
    }

    /// Seconds elapsed from `earlier` to this snapshot; 0 if this snapshot
    /// is the earlier one.
    pub fn since(&self, earlier: &TimePoint) -> (elapsed: u64)
        ensures
            elapsed == span(earlier@, self@),
    {
        if self.secs >= earlier.secs {
            self.secs - earlier.secs
        } else {
            0
        }
    }
}

} // verus!
