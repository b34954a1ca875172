use crate::text::{decimal, decimal_text};
use vstd::prelude::*;

verus! {

/// Length of a focus stage, in seconds.
pub const FOCUS_DURATION: u32 = 60 * 45;

/// Length of a long break, in seconds.
pub const LONG_BREAK_DURATION: u32 = 60 * 15;

/// Length of a short break, in seconds.
pub const SHORT_BREAK_DURATION: u32 = 60 * 5;

/// How many short breaks are taken before a long one.
pub const SHORT_BREAK_PER_LONG_BREAK: u32 = 3;

/// By how many seconds a stage is prolonged when its end is postponed.
pub const EXTEND_DURATION: u32 = 60 * 5;

/// One stage of the cycle. The number counts the short breaks taken since
/// the last long one.
#[derive(Clone, Copy, Debug, PartialEq, Eq, Structural)]
pub enum Status {
    Focus(u32),
    LongBreak,
    ShortBreak(u32),
}

impl Status {
    /// The stages that the cycle passes through: a focus stage after at most
    /// three short breaks, a short break after fewer than three.
    pub open spec fn wf(self) -> bool {
        match self {
            Status::Focus(breaks) => breaks <= SHORT_BREAK_PER_LONG_BREAK,
            Status::ShortBreak(breaks) => breaks < SHORT_BREAK_PER_LONG_BREAK,
            Status::LongBreak => true,
        }
    }

    /// The stage that follows this one.
    pub open spec fn following(self) -> Status {
        match self {
            Status::Focus(breaks) => if breaks == SHORT_BREAK_PER_LONG_BREAK {
                Status::LongBreak
            } else {
                Status::ShortBreak(breaks)
            },
            Status::LongBreak => Status::Focus(0),
            Status::ShortBreak(breaks) => Status::Focus((breaks + 1) as u32),
        }
    }

    /// The stage reached after `steps` transitions.
    pub open spec fn following_by(self, steps: nat) -> Status
        decreases steps,
    {
        if steps == 0 {
            self
        } else {
            self.following().following_by((steps - 1) as nat)
        }
    }

    /// The fixed length of this stage, in seconds.
    pub open spec fn duration(self) -> u32 {
        match self {
            Status::Focus(_) => FOCUS_DURATION,
            Status::LongBreak => LONG_BREAK_DURATION,
            Status::ShortBreak(_) => SHORT_BREAK_DURATION,
        }
    }

    /// The name under which this stage is shown.
    pub open spec fn label_text(self) -> Seq<char> {
        match self {
            Status::Focus(breaks) => "Focus Session "@ + decimal_text(breaks as nat),
            Status::LongBreak => "Long Break !!!"@,
            Status::ShortBreak(breaks) => "Short Break "@ + decimal_text(breaks as nat),
        }
    }

    /// This stage written as a value: the variant, and its count in brackets.
    pub open spec fn debug_text(self) -> Seq<char> {
        match self {
            Status::Focus(breaks) => "Focus("@ + decimal_text(breaks as nat) + ")"@,
            Status::LongBreak => "LongBreak"@,
            Status::ShortBreak(breaks) => "ShortBreak("@ + decimal_text(breaks as nat) + ")"@,
        }
    }

    /// The name under which this stage is shown.
    pub fn label(&self) -> (s: String)
        ensures
            s@ == self.label_text(),
    {
        match self {
            Status::Focus(breaks) => String::from_str("Focus Session ").concat(
                decimal(*breaks).as_str(),
            ),
            Status::LongBreak => String::from_str("Long Break !!!"),
            Status::ShortBreak(breaks) => String::from_str("Short Break ").concat(
                decimal(*breaks).as_str(),
            ),
        }
    }

    /// This stage written as a value: the variant, and its count in brackets.
    pub fn debug_label(&self) -> (s: String)
        ensures
            s@ == self.debug_text(),
    {
        match self {
            Status::Focus(breaks) => String::from_str("Focus(").concat(
                decimal(*breaks).as_str(),
            ).concat(")"),
            Status::LongBreak => String::from_str("LongBreak"),
            Status::ShortBreak(breaks) => String::from_str("ShortBreak(").concat(
                decimal(*breaks).as_str(),
            ).concat(")"),
        }
    }

    /// The fixed length of this stage, in seconds.
    pub fn time_duration(&self) -> (secs: u32)
        ensures
            secs == self.duration(),
            secs > 0,
    {
        match self {
            Status::Focus(_) => FOCUS_DURATION,
            Status::LongBreak => LONG_BREAK_DURATION,
            Status::ShortBreak(_) => SHORT_BREAK_DURATION,
        }
    }

    /// The stage that follows this one. The count of a short break must leave
    /// room for one more.
    pub fn try_next(&self) -> (next: Status)
        requires
            self matches Status::ShortBreak(breaks) ==> breaks < u32::MAX,
        ensures
            next == self.following(),
            self.wf() ==> next.wf(),
    {
        match self {
            Status::Focus(breaks) => {
                if *breaks == SHORT_BREAK_PER_LONG_BREAK {
                    Status::LongBreak
                } else {
                    Status::ShortBreak(*breaks)
                }
            },
            Status::LongBreak => Status::Focus(0),
            Status::ShortBreak(breaks) => Status::Focus(*breaks + 1),
        }
    }

    /// Moves on to the stage that follows. The count of a short break must
    /// leave room for one more.
    pub fn next(&mut self)
        requires
            *old(self) matches Status::ShortBreak(breaks) ==> breaks < u32::MAX,
        ensures
            *final(self) == old(self).following(),
            old(self).wf() ==> final(self).wf(),
    {
        *self = self.try_next()
    }
}

impl Default for Status {
    /// The stage at which every session begins: the one after a long break.
    fn default() -> (s: Status)
        ensures
            s == Status::Focus(0),
            s == Status::LongBreak.following(),
            s.wf(),
    {
        Status::LongBreak.try_next()
    }
}

/// The cycle has eight stages: eight transitions lead from every stage of
/// the cycle back to itself, and fewer do not.
pub proof fn law_cycle_closes(s: Status)
    requires
        s.wf(),
    ensures
        s.following_by(8) == s,
        forall|steps: nat| 0 < steps < 8 ==> s.following_by(steps) != s,
{
    reveal_with_fuel(Status::following_by, 9);
    assert forall|steps: nat| 0 < steps < 8 implies s.following_by(steps) != s by {
        if steps == 1 {
        } else if steps == 2 {
        } else if steps == 3 {
        } else if steps == 4 {
        } else if steps == 5 {
        } else if steps == 6 {
        } else {
            assert(steps == 7);
        }
    }
}

/// Every stage of the cycle is reached from the first focus stage in fewer
/// than eight transitions, and every stage reached from it is in the cycle.
pub proof fn law_cycle_from_start(s: Status, steps: nat)
    ensures
        s.wf() ==> exists|k: nat| k < 8 && Status::Focus(0).following_by(k) == s,
        Status::Focus(0).following_by(steps).wf(),
{
    reveal_with_fuel(Status::following_by, 9);
    if s.wf() {
        let k: nat = match s {
            Status::Focus(breaks) => (2 * breaks) as nat,
            Status::ShortBreak(breaks) => (2 * breaks + 1) as nat,
            Status::LongBreak => 7,
        };
        assert(Status::Focus(0).following_by(k) == s);
    }
    lemma_following_keeps_cycle(Status::Focus(0), steps);
}

/// Transitions never leave the cycle.
pub proof fn lemma_following_keeps_cycle(s: Status, steps: nat)
    requires
        s.wf(),
    ensures
        s.following_by(steps).wf(),
    decreases steps,
{
    if steps > 0 {
        lemma_following_keeps_cycle(s.following(), (steps - 1) as nat);
    }
}

} // verus!
