use crate::clock::{span, TimePoint};
use vstd::prelude::*;

verus! {

/// What a poll of the countdown publishes.
#[derive(Clone, Copy, Debug, PartialEq, Eq, Structural)]
pub enum Event {
    /// The countdown goes on; the payload is the remaining time in seconds.
    Tick(u32),
    /// The countdown has just reached zero.
    Finished,
}

/// Why the countdown refused a request.
#[derive(Clone, Copy, Debug, PartialEq, Eq, Structural)]
pub enum TimerError {
    /// A countdown was asked for with a duration of zero.
    InvalidDuration,
}

/// A request to the countdown.
#[derive(Clone, Copy, Debug, PartialEq, Eq, Structural)]
pub enum TimerMsg {
    ResumeTimer,
    PauseTimer,
    /// Start a fresh countdown of the given number of seconds.
    ResetTimer(u32),
    /// One scheduler tick has passed.
    CountDown,
}

/// What handling one request did, as far as an observer is concerned.
#[derive(Clone, Copy, Debug, PartialEq, Eq, Structural)]
pub struct TimerUpdate {
    /// What to publish, if anything.
    pub event: Option<Event>,
    /// Whether what an observer sees of the countdown has changed.
    pub redraw: bool,
}

/// `n`, held to the width in which the countdown stores a duration.
pub open spec fn capped(n: nat) -> nat {
    if n <= u32::MAX {
        n
    } else {
        u32::MAX as nat
    }
}

/// The countdown as a mathematical value. Times are seconds since the clock's
/// origin, durations are seconds.
pub struct TimerState {
    pub running: bool,
    /// The reading at which the current run began; `None` once the countdown
    /// has been reported finished or was stopped, and before the first start.
    pub start_time: Option<nat>,
    /// Time counted in earlier runs, before the last pause.
    pub accumulated_elapsed: nat,
    pub max_duration: nat,
}

impl TimerState {
    /// A running countdown knows when its run began and had time left then,
    /// and durations fit the width in which they are stored.
    pub open spec fn wf(self) -> bool {
        &&& self.running ==> self.start_time is Some
        &&& self.running ==> self.accumulated_elapsed < self.max_duration
        &&& self.accumulated_elapsed <= u32::MAX
        &&& self.max_duration <= u32::MAX
    }

    /// Time counted in the current run, up to the reading `now`.
    pub open spec fn run_elapsed(self, now: nat) -> nat {
        match self.start_time {
            Some(start) if self.running => span(start, now),
            _ => 0,
        }
    }

    /// All time counted so far at the reading `now`.
    pub open spec fn elapsed(self, now: nat) -> nat {
        self.accumulated_elapsed + self.run_elapsed(now)
    }

    /// Time left at the reading `now`: the duration less all time counted,
    /// and zero once that exceeds the duration.
    pub open spec fn remaining(self, now: nat) -> nat {
        if self.max_duration >= self.elapsed(now) {
            (self.max_duration - self.elapsed(now)) as nat
        } else {
            0
        }
    }

    /// Nothing is left to count and nothing is left to report: the state in
    /// which the countdown rests until it is started afresh.
    pub open spec fn at_rest(self) -> bool {
        &&& !self.running
        &&& self.start_time is None
        &&& self.accumulated_elapsed >= self.max_duration
    }

    /// A countdown of `duration` seconds that has not been started.
    pub open spec fn armed(duration: nat) -> TimerState {
        TimerState { running: false, start_time: None, accumulated_elapsed: 0, max_duration: duration }
    }

    /// A fresh countdown of `duration` seconds, running from the reading `now`.
    pub open spec fn reset(self, now: nat, duration: nat) -> TimerState {
        TimerState {
            running: true,
            start_time: Some(now),
            accumulated_elapsed: 0,
            max_duration: duration,
        }
    }

    /// The countdown frozen at the reading `now`: the time of the current run
    /// is added to the time counted before. Unchanged if it does not run.
    pub open spec fn pause(self, now: nat) -> TimerState {
        if self.running {
            TimerState {
                running: false,
                accumulated_elapsed: capped(self.elapsed(now)),
                ..self
            }
        } else {
            self
        }
    }

    /// The countdown running on from the reading `now`. Unchanged if it runs
    /// already or has nothing left.
    pub open spec fn resume(self, now: nat) -> TimerState {
        if !self.running && self.remaining(now) > 0 {
            TimerState { running: true, start_time: Some(now), ..self }
        } else {
            self
        }
    }

    /// The countdown abandoned: at rest, with nothing left.
    pub open spec fn stop(self) -> TimerState {
        TimerState {
            running: false,
            start_time: None,
            accumulated_elapsed: self.max_duration,
            max_duration: self.max_duration,
        }
    }

    /// The state after a poll at the reading `now`: at rest once the poll has
    /// found nothing left of a countdown that was under way, unchanged
    /// otherwise.
    pub open spec fn poll(self, now: nat) -> TimerState {
        if self.remaining(now) == 0 && self.start_time is Some {
            TimerState {
                running: false,
                start_time: None,
                accumulated_elapsed: capped(self.elapsed(now)),
                max_duration: self.max_duration,
            }
        } else {
            self
        }
    }

    /// What a poll at the reading `now` publishes: the time left while there
    /// is some, the end of a countdown that was under way, else nothing.
    pub open spec fn poll_event(self, now: nat) -> Option<Event> {
        if self.remaining(now) > 0 {
            Some(Event::Tick(self.remaining(now) as u32))
        } else if self.start_time is Some {
            Some(Event::Finished)
        } else {
            None
        }
    }
}

impl TimerState {
    /// Whether a request stays within the countdown that is under way: every
    /// request does but one that starts a fresh countdown.
    pub open spec fn keeps_cycle(msg: TimerMsg) -> bool {
        msg matches TimerMsg::ResetTimer(duration) ==> duration == 0
    }

    /// The state after the request `msg` handled at the reading `now`.
    pub open spec fn update(self, msg: TimerMsg, now: nat) -> TimerState {
        match msg {
            TimerMsg::ResumeTimer => self.resume(now),
            TimerMsg::PauseTimer => self.pause(now),
            TimerMsg::ResetTimer(duration) => if duration > 0 {
                self.reset(now, duration as nat)
            } else {
                self
            },
            TimerMsg::CountDown => self.poll(now),
        }
    }

    /// What handling the request `msg` at the reading `now` publishes.
    pub open spec fn update_event(self, msg: TimerMsg, now: nat) -> Option<Event> {
        match msg {
            TimerMsg::CountDown => self.poll_event(now),
            _ => None,
        }
    }

    /// Whether handling `msg` at the reading `now` changes what an observer
    /// of the countdown sees.
    pub open spec fn update_redraw(self, msg: TimerMsg, now: nat) -> bool {
        match msg {
            TimerMsg::ResumeTimer => !self.running && self.remaining(now) > 0,
            TimerMsg::PauseTimer => self.running,
            TimerMsg::ResetTimer(_) => true,
            TimerMsg::CountDown => self.poll_event(now) is Some,
        }
    }

    /// The state after handling the requests `msgs` in order, the `i`-th at
    /// the reading `times[i]`.
    pub open spec fn update_all(self, msgs: Seq<TimerMsg>, times: Seq<nat>) -> TimerState
        decreases msgs.len(),
    {
        if msgs.len() == 0 || times.len() != msgs.len() {
            self
        } else {
            self.update(msgs[0], times[0]).update_all(msgs.drop_first(), times.drop_first())
        }
    }

    /// How many times `Finished` is published while the requests `msgs` are
    /// handled in order, the `i`-th at the reading `times[i]`.
    pub open spec fn finished_count(self, msgs: Seq<TimerMsg>, times: Seq<nat>) -> nat
        decreases msgs.len(),
    {
        if msgs.len() == 0 || times.len() != msgs.len() {
            0
        } else {
            let first: nat = if self.update_event(msgs[0], times[0]) == Some(Event::Finished) {
                1
            } else {
                0
            };
            first + self.update(msgs[0], times[0]).finished_count(
                msgs.drop_first(),
                times.drop_first(),
            )
        }
    }
}

/// A fresh countdown of `duration` seconds, asked at the very reading at which
/// it was started, has all of `duration` left.
pub proof fn law_reset_then_remaining(s: TimerState, now: nat, duration: nat)
    requires
        duration > 0,
    ensures
        s.reset(now, duration).remaining(now) == duration,
{
}

/// While the countdown runs, the time left never grows as the clock advances,
/// and it never exceeds the duration.
pub proof fn law_remaining_non_increasing(s: TimerState, earlier: nat, later: nat)
    requires
        s.wf(),
        s.running,
        earlier <= later,
    ensures
        s.remaining(later) <= s.remaining(earlier) <= s.max_duration,
{
}

/// A running countdown has nothing left exactly from the reading that lies
/// its unspent time after the start of the run. For one that was never
/// paused, that is the start plus the whole duration. At a reading before
/// the start, as a clock set back gives it, time is left and a poll changes
/// nothing.
pub proof fn law_reaches_zero(s: TimerState, now: nat)
    requires
        s.wf(),
        s.running,
    ensures
        s.remaining(now) == 0 <==> now >= s.start_time->0 + s.max_duration
            - s.accumulated_elapsed,
        s.accumulated_elapsed == 0 ==> s.remaining(s.start_time->0 + s.max_duration) == 0,
        s.start_time->0 <= now <= s.start_time->0 + s.max_duration - s.accumulated_elapsed
            ==> s.remaining(now) == s.start_time->0 + s.max_duration - s.accumulated_elapsed
            - now,
        now <= s.start_time->0 ==> s.remaining(now) > 0 && s.poll(now) == s,
{
}

/// Time spent paused costs nothing: the time left when the countdown is paused
/// is the time left at every later reading while it stays paused, and the
/// time left right after it is resumed, however long the pause was.
pub proof fn law_pause_resume_keeps_remaining(s: TimerState, paused_at: nat, resumed_at: nat, t: nat)
    requires
        s.wf(),
    ensures
        s.pause(paused_at).remaining(t) == s.remaining(paused_at),
        s.pause(paused_at).resume(resumed_at).remaining(resumed_at) == s.remaining(paused_at),
{
}

/// Every request keeps a well-formed countdown well-formed, and a countdown
/// at rest stays at rest and publishes nothing until it is started afresh.
pub proof fn law_rest_is_kept(s: TimerState, msg: TimerMsg, now: nat)
    requires
        s.wf(),
    ensures
        s.update(msg, now).wf(),
        s.update_event(msg, now) == Some(Event::Finished) ==> s.update(msg, now).at_rest(),
        s.at_rest() && TimerState::keeps_cycle(msg) ==> s.update(msg, now) == s
            && s.update_event(msg, now) is None,
{
}

/// Between two fresh starts `Finished` is published at most once, whatever
/// requests arrive in what order and at what readings, and however often the
/// countdown is polled after it has run out.
pub proof fn law_finished_at_most_once(s: TimerState, msgs: Seq<TimerMsg>, times: Seq<nat>)
    requires
        s.wf(),
        forall|i: int| 0 <= i < msgs.len() ==> TimerState::keeps_cycle(#[trigger] msgs[i]),
    ensures
        s.finished_count(msgs, times) <= 1,
        s.at_rest() ==> s.finished_count(msgs, times) == 0,
    decreases msgs.len(),
{
    if msgs.len() > 0 && times.len() == msgs.len() {
        let next = s.update(msgs[0], times[0]);
        law_rest_is_kept(s, msgs[0], times[0]);
        assert forall|i: int| 0 <= i < msgs.drop_first().len() implies TimerState::keeps_cycle(
            #[trigger] msgs.drop_first()[i],
        ) by {
            assert(msgs.drop_first()[i] == msgs[i + 1]);
        }
        law_finished_at_most_once(next, msgs.drop_first(), times.drop_first());
    }
}

/// A drift-free countdown: the time left is worked out from wall-clock
/// readings each time it is asked for, never stepped down tick by tick.
#[derive(Clone, Copy, Debug)]
pub struct Timer {
    running: bool,
    start_time: Option<TimePoint>,
    accumulated_elapsed: u32,
    max_duration: u32,
}

impl View for Timer {
    type V = TimerState;

    closed spec fn view(&self) -> TimerState {
        TimerState {
            running: self.running,
            start_time: match self.start_time {
                Some(t) => Some(t@),
                None => None,
            },
            accumulated_elapsed: self.accumulated_elapsed as nat,
            max_duration: self.max_duration as nat,
        }
    }
}

/// `acc + more`, held to the width of a stored duration.
fn add_capped(acc: u32, more: u64) -> (sum: u32)
    ensures
        sum == capped((acc + more) as nat),
{
    let room: u32 = u32::MAX - acc;
    if more >= room as u64 {
        u32::MAX
    } else {
        acc + (more as u32)
    }
}

impl Timer {
    /// Holds of every countdown at all times.
    #[verifier::type_invariant]
    pub open spec fn wf(&self) -> bool {
        self@.wf()
    }

    /// A countdown of `duration` seconds that waits to be started.
    pub fn new(duration: u32) -> (t: Timer)
        ensures
            t.wf(),
            t@ == TimerState::armed(duration as nat),
    {
        Timer { running: false, start_time: None, accumulated_elapsed: 0, max_duration: duration }
    }

    pub fn is_running(&self) -> (b: bool)
        ensures
            b == self@.running,
    {
        self.running
    }

    pub fn max_duration(&self) -> (d: u32)
        ensures
            d == self@.max_duration,
    {
        self.max_duration
    }

    pub fn accumulated_elapsed(&self) -> (d: u32)
        ensures
            d == self@.accumulated_elapsed,
    {
        self.accumulated_elapsed
    }

    /// The reading at which the current run began, if there is one.
    pub fn start_time(&self) -> (t: Option<TimePoint>)
        ensures
            t is Some == self@.start_time is Some,
            t matches Some(start) ==> self@.start_time == Some(start@),
    {
        self.start_time
    }

    /// Seconds counted in the current run at the reading `now`.
    fn run_elapsed_at(&self, now: TimePoint) -> (e: u64)
        ensures
            e == self@.run_elapsed(now@),
    {
        if !self.running {
            return 0;
        }
        match self.start_time {
            Some(start) => now.since(&start),
            None => 0,
        }
    }

    /// Seconds left at the reading `now`.
    pub fn remaining_at(&self, now: TimePoint) -> (left: u32)
        ensures
            left == self@.remaining(now@),
            left <= self@.max_duration,
    {
        let run: u64 = self.run_elapsed_at(now);
        if self.accumulated_elapsed >= self.max_duration {
            return 0;
        }
        let budget: u32 = self.max_duration - self.accumulated_elapsed;
        if run >= budget as u64 {
            0
        } else {
            budget - (run as u32)
        }
    }

    /// Whether a poll at the reading `now` would find the countdown just run
    /// out: nothing is left, and that has not been reported yet.
    pub fn has_run_out_at(&self, now: TimePoint) -> (b: bool)
        ensures
            b == (self@.poll_event(now@) == Some(Event::Finished)),
    {
        self.start_time.is_some() && self.remaining_at(now) == 0
    }

    /// Starts a fresh countdown of `duration` seconds at the reading `now`.
    /// A duration of zero is refused and leaves the countdown as it was.
    pub fn reset_at(&mut self, now: TimePoint, duration: u32) -> (r: Result<(), TimerError>)
        ensures
            duration == 0 ==> r == Err::<(), TimerError>(TimerError::InvalidDuration) && *final(self)
                == *old(self),
            duration > 0 ==> r is Ok && final(self)@ == old(self)@.reset(now@, duration as nat),
            duration > 0 ==> final(self).wf() && final(self)@.remaining(now@) == duration,
    {
        if duration == 0 {
            return Err(TimerError::InvalidDuration);
        }
        self.running = false;
        self.accumulated_elapsed = 0;
        self.max_duration = duration;
        self.start_time = Some(now);
        self.running = true;
        Ok(())
    }

    /// Freezes the countdown at the reading `now`. A countdown that is not
    /// running is left as it is.
    pub fn pause_at(&mut self, now: TimePoint)
        ensures
            final(self).wf(),
            final(self)@ == old(self)@.pause(now@),
    {
        proof {
            use_type_invariant(&*self);
        }
        if self.running {
            let run: u64 = self.run_elapsed_at(now);
            self.running = false;
            self.accumulated_elapsed = add_capped(self.accumulated_elapsed, run);
        }
    }

    /// Lets a frozen countdown run on from the reading `now`. Nothing changes
    /// if it runs already or has nothing left.
    pub fn resume_at(&mut self, now: TimePoint)
        ensures
            final(self).wf(),
            final(self)@ == old(self)@.resume(now@),
    {
        proof {
            use_type_invariant(&*self);
        }
        if !self.running && self.remaining_at(now) > 0 {
            self.start_time = Some(now);
            self.running = true;
        }
    }

    /// Abandons the countdown: it stops, nothing is left of it, and no
    /// `Finished` will be published for it.
    pub fn stop(&mut self)
        ensures
            final(self).wf(),
            final(self)@ == old(self)@.stop(),
            final(self)@.at_rest(),
    {
        self.running = false;
        self.start_time = None;
        self.accumulated_elapsed = self.max_duration;
    }

    /// Works out the time left at the reading `now` and says what to publish:
    /// `Tick` with the time left while there is some, `Finished` the first
    /// time there is none, and nothing from then on until the next start.
    pub fn poll_at(&mut self, now: TimePoint) -> (event: Option<Event>)
        ensures
            final(self).wf(),
            final(self)@ == old(self)@.poll(now@),
            event == old(self)@.poll_event(now@),
            event == Some(Event::Finished) ==> final(self)@.at_rest(),
    {
        proof {
            use_type_invariant(&*self);
        }
        let left: u32 = self.remaining_at(now);
        if left > 0 {
            return Some(Event::Tick(left));
        }
        if self.start_time.is_none() {
            return None;
        }
        let run: u64 = self.run_elapsed_at(now);
        self.running = false;
        self.accumulated_elapsed = add_capped(self.accumulated_elapsed, run);
        self.start_time = None;
        Some(Event::Finished)
    }

    /// Handles one request at the reading `now`: resume, pause, a fresh start,
    /// or a scheduler tick, which polls. Only a fresh start of zero seconds is
    /// refused; it changes nothing.
    pub fn update(&mut self, msg: TimerMsg, now: TimePoint) -> (r: Result<TimerUpdate, TimerError>)
        ensures
            final(self).wf(),
            final(self)@ == old(self)@.update(msg, now@),
            r is Err <==> msg == TimerMsg::ResetTimer(0),
            r is Err ==> r == Err::<TimerUpdate, TimerError>(TimerError::InvalidDuration)
                && *final(self) == *old(self),
            r matches Ok(done) ==> done.event == old(self)@.update_event(msg, now@)
                && done.redraw == old(self)@.update_redraw(msg, now@),
    {
        proof {
            use_type_invariant(&*self);
        }
        match msg {
            TimerMsg::ResumeTimer => {
                let was_running = self.running;
                self.resume_at(now);
                Ok(TimerUpdate { event: None, redraw: !was_running && self.running })
            },
            TimerMsg::PauseTimer => {
                let was_running = self.running;
                self.pause_at(now);
                Ok(TimerUpdate { event: None, redraw: was_running })
            },
            TimerMsg::ResetTimer(duration) => {
                match self.reset_at(now, duration) {
                    Ok(()) => Ok(TimerUpdate { event: None, redraw: true }),
                    Err(e) => Err(e),
                }
            },
            TimerMsg::CountDown => {
                let event = self.poll_at(now);
                Ok(TimerUpdate { event, redraw: event.is_some() })
            },
        }
    }

    /// Seconds left by the wall clock as it reads now.
    pub fn remaining(&self) -> (left: u32)
        ensures
            left <= self@.max_duration,
            exists|now: TimePoint| left == self@.remaining(now@),
    {
        let now = TimePoint::now();
        self.remaining_at(now)
    }

    /// Starts a fresh countdown of `duration` seconds at the wall clock's
    /// present reading. A duration of zero is refused and changes nothing.
    pub fn reset(&mut self, duration: u32) -> (r: Result<(), TimerError>)
        ensures
            duration == 0 ==> r == Err::<(), TimerError>(TimerError::InvalidDuration) && *final(self)
                == *old(self),
            duration > 0 ==> r is Ok && final(self).wf() && exists|now: TimePoint|
                final(self)@ == old(self)@.reset(now@, duration as nat),
    {
        let now = TimePoint::now();
        self.reset_at(now, duration)
    }

    /// Freezes the countdown at the wall clock's present reading.
    pub fn pause(&mut self)
        ensures
            final(self).wf(),
            exists|now: TimePoint| final(self)@ == old(self)@.pause(now@),
    {
        let now = TimePoint::now();
        self.pause_at(now)
    }

    /// Lets a frozen countdown run on from the wall clock's present reading.
    pub fn resume(&mut self)
        ensures
            final(self).wf(),
            exists|now: TimePoint| final(self)@ == old(self)@.resume(now@),
    {
        let now = TimePoint::now();
        self.resume_at(now)
    }

    /// Polls the countdown at the wall clock's present reading.
    pub fn poll(&mut self) -> (event: Option<Event>)
        ensures
            final(self).wf(),
            exists|now: TimePoint|
                final(self)@ == old(self)@.poll(now@) && event == old(self)@.poll_event(now@),
            event == Some(Event::Finished) ==> final(self)@.at_rest(),
    {
        let now = TimePoint::now();
        self.poll_at(now)
    }
}

impl Default for Timer {
    /// A countdown with nothing to count, at rest.
    fn default() -> (t: Timer)
        ensures
            t.wf(),
            t@ == TimerState::armed(0),
    {
        Timer::new(0)
    }
}

} // verus!
