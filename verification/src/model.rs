use crate::clock::TimePoint;
use crate::status::{Status, EXTEND_DURATION, FOCUS_DURATION};
use crate::text::{show_time, show_time_text};
use crate::timer::{Event, Timer, TimerError, TimerState};
use vstd::prelude::*;

verus! {

/// What the user interface asks of the session.
#[derive(Clone, Copy, Debug, PartialEq, Eq, Structural)]
pub enum AppMsg {
    ResumeTimer,
    /// One scheduler tick has passed.
    CountDown,
    PauseTimer,
    /// Start the current stage over.
    ResetTimer,
    NotifyToggled(bool),
    AutoNextTaskToggled(bool),
    /// Postpone the end of the current stage.
    ExtendStage,
    NextStage,
}

/// A control command of the scheduler loop. Durations are in seconds.
#[derive(Clone, Copy, Debug, PartialEq, Eq, Structural)]
pub enum Command {
    Start(u32),
    Stop,
    Pause,
    Resume,
    Reset(u32),
    Extend(u32),
    NextStage,
}

/// What the caller has to do after the session handled a message.
#[derive(Clone, Copy, Debug, PartialEq, Eq, Structural)]
pub struct Effect {
    /// Whether the scheduler should go on ticking.
    pub timer_active: bool,
    /// Whether the user is to be asked how to go on.
    pub show_dialog: bool,
    /// What to publish, if anything.
    pub event: Option<Event>,
}

/// The session as a mathematical value: the stage, the settings, whether a
/// decision of the user is awaited, whether the session is paused, and the
/// countdown.
pub struct ModelState {
    pub status: Status,
    pub auto_advance: bool,
    pub notify: bool,
    /// The stage has run out and the user has not yet said how to go on.
    pub pending: bool,
    /// The session stands still: by the user's wish, or because it waits for
    /// the user's decision.
    pub paused: bool,
    pub timer: TimerState,
}

impl ModelState {
    /// The stage is one of the cycle; a session that waits for the user has
    /// a countdown at rest; a paused session has no running countdown; and a
    /// session that is not paused either counts or has yet to begin with its
    /// first message.
    pub open spec fn wf(self) -> bool {
        &&& self.status.wf()
        &&& self.timer.wf()
        &&& self.pending ==> self.timer.at_rest()
        &&& self.timer.running ==> !self.paused
        &&& !self.timer.running && !self.paused ==> self.timer.start_time is None
            && self.timer.accumulated_elapsed < self.timer.max_duration
    }

    /// The session at process start: the first focus stage, not paused, its
    /// countdown armed to begin with the first message, notification on,
    /// automatic advance off.
    pub open spec fn initial() -> ModelState {
        ModelState {
            status: Status::Focus(0),
            auto_advance: false,
            notify: true,
            pending: false,
            paused: false,
            timer: TimerState::armed(FOCUS_DURATION as nat),
        }
    }

    /// The session at process start with the settings that the user last
    /// chose.
    pub open spec fn configured(notify: bool, auto_advance: bool) -> ModelState {
        ModelState { notify, auto_advance, ..Self::initial() }
    }

    /// The session counting `duration` seconds afresh from the reading `now`,
    /// in the stage it is in, no longer paused.
    pub open spec fn restart(self, now: nat, duration: nat) -> ModelState {
        ModelState {
            pending: false,
            paused: false,
            timer: self.timer.reset(now, duration),
            ..self
        }
    }

    /// The session with the countdown `timer`, paused or not as `paused` says.
    pub open spec fn settled(self, paused: bool, timer: TimerState) -> ModelState {
        ModelState { paused, timer, ..self }
    }

    /// The session with its countdown begun at the reading `now`, where the
    /// session is not paused and the countdown has yet to begin: what the
    /// first message of any kind does to a new session.
    pub open spec fn begun(self, now: nat) -> ModelState {
        if !self.paused && !self.timer.running {
            ModelState { timer: self.timer.resume(now), ..self }
        } else {
            self
        }
    }

    /// The session moved to the following stage, counting that stage's length
    /// from the reading `now`.
    pub open spec fn advance(self, now: nat) -> ModelState {
        ModelState { status: self.status.following(), ..self }.restart(
            now,
            self.status.following().duration() as nat,
        )
    }

    /// The session counting `extra` seconds from the reading `now` in place
    /// of the stage's own length; unchanged where `extra` is zero.
    pub open spec fn extend(self, now: nat, extra: nat) -> ModelState {
        if extra > 0 {
            self.restart(now, extra)
        } else {
            self
        }
    }

    /// Whether a poll at the reading `now` finds the countdown just run out.
    pub open spec fn finishes(self, now: nat) -> bool {
        self.timer.poll_event(now) == Some(Event::Finished)
    }

    /// The session after a scheduler tick at the reading `now`. A countdown
    /// that has just run out leads on to the following stage where automatic
    /// advance is on; where it is off, the session is paused and waits for
    /// the user's decision.
    pub open spec fn tick(self, now: nat) -> ModelState {
        if !self.finishes(now) {
            self
        } else if self.auto_advance {
            self.advance(now)
        } else {
            ModelState { pending: true, paused: true, timer: self.timer.poll(now), ..self }
        }
    }

    /// Whether a tick at the reading `now` has the user asked how to go on.
    pub open spec fn asks(self, now: nat) -> bool {
        self.finishes(now) && !self.auto_advance && self.notify
    }

    /// The commands that are refused: those that ask for a countdown of zero
    /// seconds.
    pub open spec fn rejects(cmd: Command) -> bool {
        cmd == Command::Start(0) || cmd == Command::Reset(0) || cmd == Command::Extend(0)
    }

    /// The session after the command `cmd` applied at the reading `now`.
    pub open spec fn apply(self, cmd: Command, now: nat) -> ModelState {
        match cmd {
            Command::Start(duration) => self.extend(now, duration as nat),
            Command::Reset(duration) => self.extend(now, duration as nat),
            Command::Extend(extra) => self.extend(now, extra as nat),
            Command::Stop => ModelState { paused: true, timer: self.timer.stop(), ..self },
            Command::Pause => ModelState { paused: true, timer: self.timer.pause(now), ..self },
            Command::Resume => ModelState {
                paused: self.paused && !self.timer.resume(now).running,
                timer: self.timer.resume(now),
                ..self
            },
            Command::NextStage => self.advance(now),
        }
    }

    /// The session after the message `msg` alone, handled at the reading
    /// `now` by a session whose countdown has begun.
    pub open spec fn handle(self, msg: AppMsg, now: nat) -> ModelState {
        match msg {
            AppMsg::CountDown => self.tick(now),
            AppMsg::ResumeTimer => self.apply(Command::Resume, now).tick(now),
            AppMsg::PauseTimer => self.apply(Command::Pause, now),
            AppMsg::ResetTimer => self.apply(Command::Reset(self.status.duration()), now),
            AppMsg::ExtendStage => self.apply(Command::Extend(EXTEND_DURATION), now),
            AppMsg::NextStage => self.apply(Command::NextStage, now),
            AppMsg::NotifyToggled(on) => ModelState { notify: on, ..self },
            AppMsg::AutoNextTaskToggled(on) => ModelState { auto_advance: on, ..self },
        }
    }

    /// The session after the message `msg` handled at the reading `now`. The
    /// first message of any kind sets the countdown of a new session going.
    pub open spec fn update(self, msg: AppMsg, now: nat) -> ModelState {
        self.begun(now).handle(msg, now)
    }

    /// What handling the message `msg` at the reading `now` publishes.
    pub open spec fn update_event(self, msg: AppMsg, now: nat) -> Option<Event> {
        match msg {
            AppMsg::CountDown => self.begun(now).timer.poll_event(now),
            AppMsg::ResumeTimer => self.begun(now).apply(Command::Resume, now).timer.poll_event(
                now,
            ),
            _ => None,
        }
    }

    /// What the caller has to do after the message `msg` handled at `now`:
    /// the scheduler ticks on while the session is not paused.
    pub open spec fn update_effect(self, msg: AppMsg, now: nat) -> Effect {
        Effect {
            timer_active: !self.update(msg, now).paused,
            show_dialog: msg == AppMsg::CountDown && self.begun(now).asks(now),
            event: self.update_event(msg, now),
        }
    }

    /// The status line of the session at the reading `now`.
    pub open spec fn label_text(self, now: nat) -> Seq<char> {
        "Timer "@ + show_time_text(self.timer.remaining(now)) + " / "@ + show_time_text(
            self.status.duration() as nat,
        ) + " "@ + (if self.paused {
            " Paused "@
        } else {
            " Running "@
        }) + "| Status: "@ + self.status.debug_text()
    }
}

impl ModelState {
    /// The session after the commands `cmds` applied in the order in which
    /// they arrived, all at the reading `now`.
    pub open spec fn apply_all(self, cmds: Seq<Command>, now: nat) -> ModelState
        decreases cmds.len(),
    {
        if cmds.len() == 0 {
            self
        } else {
            self.apply_all(cmds.drop_last(), now).apply(cmds.last(), now)
        }
    }

    /// How many of the commands `cmds` are refused.
    pub open spec fn rejected_count(cmds: Seq<Command>) -> nat
        decreases cmds.len(),
    {
        if cmds.len() == 0 {
            0
        } else {
            Self::rejected_count(cmds.drop_last()) + if Self::rejects(cmds.last()) {
                1nat
            } else {
                0nat
            }
        }
    }
}

/// Every command and every message keeps a well-formed session well-formed.
pub proof fn law_session_stays_wf(s: ModelState, cmd: Command, msg: AppMsg, now: nat)
    requires
        s.wf(),
    ensures
        s.apply(cmd, now).wf(),
        s.tick(now).wf(),
        s.update(msg, now).wf(),
{
}

/// A new session is not paused, and the first message of any kind sets its
/// countdown going from the reading at which the message is handled. How
/// the session goes on from there is for the message to say: a change of a
/// setting leaves it counting with the whole stage ahead.
pub proof fn law_first_message_begins(notify: bool, auto_advance: bool, on: bool, now: nat)
    ensures
        ModelState::configured(notify, auto_advance).wf(),
        !ModelState::configured(notify, auto_advance).paused,
        ModelState::configured(notify, auto_advance).begun(now).timer.running,
        ModelState::configured(notify, auto_advance).update(
            AppMsg::NotifyToggled(on),
            now,
        ).timer.running,
        ModelState::configured(notify, auto_advance).update_effect(
            AppMsg::NotifyToggled(on),
            now,
        ).timer_active,
        ModelState::configured(notify, auto_advance).update(
            AppMsg::AutoNextTaskToggled(on),
            now,
        ).timer.remaining(now) == FOCUS_DURATION,
        ModelState::initial() == ModelState::configured(true, false),
{
}

/// Once a message has been handled, or a command that was not refused, the
/// session is paused exactly while its countdown does not run; and a session
/// whose countdown has begun is left as it is by a further beginning.
pub proof fn law_pause_follows_countdown(s: ModelState, cmd: Command, msg: AppMsg, now: nat)
    requires
        s.wf(),
    ensures
        s.update(msg, now).paused == !s.update(msg, now).timer.running,
        !ModelState::rejects(cmd) ==> s.apply(cmd, now).paused == !s.apply(
            cmd,
            now,
        ).timer.running,
        s.paused == !s.timer.running ==> s.begun(now) == s,
{
}

/// The stage changes in one way only: by a step to the stage that follows.
/// A message takes that step where it asks for the next stage, and where it
/// finds the countdown run out while automatic advance is on; a command takes
/// it only where it asks for the next stage.
pub proof fn law_stage_moves_only_by_advance(s: ModelState, cmd: Command, msg: AppMsg, now: nat)
    requires
        s.wf(),
    ensures
        s.apply(cmd, now).status == if cmd == Command::NextStage {
            s.status.following()
        } else {
            s.status
        },
        s.update(msg, now).status == s.status || s.update(msg, now).status
            == s.status.following(),
        s.update(msg, now).status != s.status ==> msg == AppMsg::NextStage || (s.auto_advance
            && s.update_event(msg, now) == Some(Event::Finished)),
        s.apply(cmd, now).notify == s.notify && s.apply(cmd, now).auto_advance == s.auto_advance,
{
}

/// With automatic advance on, a stage that runs out leads straight on to the
/// following stage, whose whole length is then left. With it off, the stage
/// stays, the countdown rests, and the session waits for the user.
pub proof fn law_finish_advances_or_waits(s: ModelState, now: nat)
    requires
        s.wf(),
        s.finishes(now),
    ensures
        s.auto_advance ==> s.tick(now).status == s.status.following() && !s.tick(now).pending
            && !s.tick(now).paused && s.tick(now).timer.running && s.tick(now).timer.remaining(
            now,
        ) == s.status.following().duration(),
        !s.auto_advance ==> s.tick(now).status == s.status && s.tick(now).pending && s.tick(
            now,
        ).paused && s.tick(now).timer.at_rest() && s.tick(now).timer.remaining(now) == 0,
{
}

/// The session comes to wait for the user only where automatic advance is
/// off, and only by a countdown that has just run out.
pub proof fn law_waits_only_without_auto_advance(s: ModelState, msg: AppMsg, now: nat)
    requires
        s.wf(),
        !s.pending,
        s.update(msg, now).pending,
    ensures
        !s.auto_advance,
        msg == AppMsg::CountDown || msg == AppMsg::ResumeTimer,
        s.update_event(msg, now) == Some(Event::Finished),
        s.update(msg, now).status == s.status,
{
}

/// While the session waits for the user, the stage stays and nothing is
/// published; only a decision ends the wait: to move on, to postpone, or to
/// start the stage over.
pub proof fn law_wait_ends_by_decision(s: ModelState, msg: AppMsg, now: nat)
    requires
        s.wf(),
        s.pending,
    ensures
        s.update_event(msg, now) is None,
        !s.update_effect(msg, now).show_dialog,
        s.update(msg, now).pending <==> !(msg == AppMsg::NextStage || msg == AppMsg::ExtendStage
            || msg == AppMsg::ResetTimer),
        s.update(msg, now).pending ==> s.update(msg, now).status == s.status,
{
}

/// Postponing counts the extra time afresh and leaves the stage as it is,
/// whether or not the session was waiting for the user.
pub proof fn law_extend_keeps_stage(s: ModelState, now: nat, extra: nat)
    requires
        s.wf(),
        0 < extra <= u32::MAX,
    ensures
        s.extend(now, extra).status == s.status,
        !s.extend(now, extra).pending,
        s.extend(now, extra).timer.running,
        s.extend(now, extra).timer.remaining(now) == extra,
        s.extend(now, extra).wf(),
{
}

/// Commands take effect in the order of their arrival: applying one batch
/// and then another is applying the two joined.
pub proof fn law_commands_in_arrival_order(
    s: ModelState,
    first: Seq<Command>,
    second: Seq<Command>,
    now: nat,
)
    ensures
        s.apply_all(first + second, now) == s.apply_all(first, now).apply_all(second, now),
        ModelState::rejected_count(first + second) == ModelState::rejected_count(first)
            + ModelState::rejected_count(second),
    decreases second.len(),
{
    if second.len() == 0 {
        assert(first + second =~= first);
    } else {
        assert((first + second).drop_last() =~= first + second.drop_last());
        assert((first + second).last() == second.last());
        law_commands_in_arrival_order(s, first, second.drop_last(), now);
    }
}

/// Whatever was asked before, the last word counts: after a batch that ends
/// in `Stop` or `Pause` the countdown does not run, and after `Stop` nothing
/// is left of it.
pub proof fn law_later_stop_wins(s: ModelState, earlier: Seq<Command>, now: nat)
    requires
        s.wf(),
    ensures
        !s.apply_all(earlier.push(Command::Stop), now).timer.running,
        s.apply_all(earlier.push(Command::Stop), now).timer.at_rest(),
        !s.apply_all(earlier.push(Command::Pause), now).timer.running,
        s.apply_all(earlier, now).wf(),
    decreases earlier.len(),
{
    assert(earlier.push(Command::Stop).drop_last() =~= earlier);
    assert(earlier.push(Command::Pause).drop_last() =~= earlier);
    if earlier.len() > 0 {
        law_later_stop_wins(s, earlier.drop_last(), now);
        assert(earlier.drop_last().push(earlier.last()) =~= earlier);
    }
}

/// The session: the stage of the cycle, the user's settings, and the
/// countdown of the stage.
#[derive(Clone, Copy, Debug)]
pub struct AppModel {
    is_paused: bool,
    is_notify: bool,
    is_auto_next_task: bool,
    awaits_decision: bool,
    timer: Timer,
    status: Status,
}

impl View for AppModel {
    type V = ModelState;

    closed spec fn view(&self) -> ModelState {
        ModelState {
            status: self.status,
            auto_advance: self.is_auto_next_task,
            notify: self.is_notify,
            pending: self.awaits_decision,
            paused: self.is_paused,
            timer: self.timer@,
        }
    }
}

impl AppModel {
    /// Holds of every session at all times.
    #[verifier::type_invariant]
    pub open spec fn wf(&self) -> bool {
        self@.wf()
    }

    /// The session as it is when the process starts.
    pub fn new() -> (m: AppModel)
        ensures
            m.wf(),
            m@ == ModelState::initial(),
    {
        let status = Status::Focus(0);
        AppModel {
            is_paused: false,
            is_notify: true,
            is_auto_next_task: false,
            awaits_decision: false,
            timer: Timer::new(status.time_duration()),
            status,
        }
    }

    /// The session as it is when the process starts, with the settings that
    /// the user last chose.
    pub fn with_settings(is_notify: bool, is_auto_next_task: bool) -> (m: AppModel)
        ensures
            m.wf(),
            m@ == ModelState::configured(is_notify, is_auto_next_task),
    {
        let status = Status::Focus(0);
        AppModel {
            is_paused: false,
            is_notify,
            is_auto_next_task,
            awaits_decision: false,
            timer: Timer::new(status.time_duration()),
            status,
        }
    }

    pub fn status(&self) -> (s: Status)
        ensures
            s == self@.status,
    {
        self.status
    }

    pub fn is_notify(&self) -> (b: bool)
        ensures
            b == self@.notify,
    {
        self.is_notify
    }

    pub fn is_auto_next_task(&self) -> (b: bool)
        ensures
            b == self@.auto_advance,
    {
        self.is_auto_next_task
    }

    /// Whether the session is paused.
    pub fn is_paused(&self) -> (b: bool)
        ensures
            b == self@.paused,
    {
        self.is_paused
    }

    /// Whether the stage has run out and the user's decision is awaited.
    pub fn is_pending_confirmation(&self) -> (b: bool)
        ensures
            b == self@.pending,
    {
        self.awaits_decision
    }

    /// The countdown of the current stage.
    pub fn timer(&self) -> (t: &Timer)
        ensures
            t@ == self@.timer,
    {
        &self.timer
    }

    /// Seconds left of the current stage at the reading `now`.
    pub fn remaining_at(&self, now: TimePoint) -> (left: u32)
        ensures
            left == self@.timer.remaining(now@),
    {
        self.timer.remaining_at(now)
    }

    /// Moves on to the following stage and counts its length from the
    /// reading `now`. Gives the new stage and its length in seconds.
    pub fn advance(&mut self, now: TimePoint) -> (next: (Status, u32))
        ensures
            final(self).wf(),
            final(self)@ == old(self)@.advance(now@),
            next.0 == old(self)@.status.following(),
            next.1 == next.0.duration(),
            final(self)@.timer.remaining(now@) == next.1,
    {
        proof {
            use_type_invariant(&*self);
        }
        let next = self.status.try_next();
        let duration = next.time_duration();
        let mut timer = self.timer;
        let started = timer.reset_at(now, duration);
        *self = AppModel {
            is_paused: false,
            is_notify: self.is_notify,
            is_auto_next_task: self.is_auto_next_task,
            awaits_decision: false,
            timer,
            status: next,
        };
        (next, duration)
    }

    /// Counts `extra` seconds from the reading `now` in place of the stage's
    /// own length, and leaves the stage as it is. Zero seconds are refused.
    pub fn extend(&mut self, now: TimePoint, extra: u32) -> (r: Result<(), TimerError>)
        ensures
            final(self).wf(),
            final(self)@ == old(self)@.extend(now@, extra as nat),
            extra == 0 ==> r == Err::<(), TimerError>(TimerError::InvalidDuration) && *final(self)
                == *old(self),
            extra > 0 ==> r is Ok && final(self)@.status == old(self)@.status
                && final(self)@.timer.remaining(now@) == extra,
    {
        proof {
            use_type_invariant(&*self);
        }
        let mut timer = self.timer;
        match timer.reset_at(now, extra) {
            Ok(()) => {
                *self = AppModel {
                    is_paused: false,
                    is_notify: self.is_notify,
                    is_auto_next_task: self.is_auto_next_task,
                    awaits_decision: false,
                    timer,
                    status: self.status,
                };
                Ok(())
            },
            Err(e) => Err(e),
        }
    }

    /// Takes over the countdown `timer` and whether the session is paused, and
    /// leaves the rest as it is.
    fn settle(&mut self, is_paused: bool, timer: Timer)
        requires
            old(self)@.settled(is_paused, timer@).wf(),
        ensures
            final(self)@ == old(self)@.settled(is_paused, timer@),
    {
        *self = AppModel {
            is_paused,
            is_notify: self.is_notify,
            is_auto_next_task: self.is_auto_next_task,
            awaits_decision: self.awaits_decision,
            timer,
            status: self.status,
        };
    }

    /// Handles a scheduler tick at the reading `now`: polls the countdown,
    /// and where it has just run out moves on or waits for the user, as the
    /// automatic advance is on or off.
    pub fn tick(&mut self, now: TimePoint) -> (effect: Effect)
        ensures
            final(self).wf(),
            final(self)@ == old(self)@.tick(now@),
            effect.event == old(self)@.timer.poll_event(now@),
            effect.show_dialog == old(self)@.asks(now@),
            effect.timer_active == !final(self)@.paused,
    {
        proof {
            use_type_invariant(&*self);
        }
        let mut timer = self.timer;
        let event = timer.poll_at(now);
        let mut show_dialog = false;
        if event == Some(Event::Finished) {
            if self.is_auto_next_task {
                let next = self.advance(now);
            } else {
                show_dialog = self.is_notify;
                *self = AppModel {
                    is_paused: true,
                    is_notify: self.is_notify,
                    is_auto_next_task: self.is_auto_next_task,
                    awaits_decision: true,
                    timer,
                    status: self.status,
                };
            }
        }
        Effect { timer_active: !self.is_paused, show_dialog, event }
    }

    /// Looks whether the countdown has just run out at the reading `now` and,
    /// if so, moves on or waits for the user. Says whether the user is to be
    /// asked how to go on.
    pub fn reset_timer_if_empty(&mut self, now: TimePoint) -> (ask: bool)
        ensures
            final(self).wf(),
            final(self)@ == old(self)@.tick(now@),
            ask == old(self)@.asks(now@),
    {
        self.tick(now).show_dialog
    }

    /// Applies one control command at the reading `now`. A command that asks
    /// for a countdown of zero seconds is refused and changes nothing.
    pub fn apply(&mut self, cmd: Command, now: TimePoint) -> (r: Result<(), TimerError>)
        ensures
            final(self).wf(),
            final(self)@ == old(self)@.apply(cmd, now@),
            r is Err <==> ModelState::rejects(cmd),
            r is Err ==> r == Err::<(), TimerError>(TimerError::InvalidDuration) && *final(self)
                == *old(self),
    {
        proof {
            use_type_invariant(&*self);
        }
        let mut timer = self.timer;
        match cmd {
            Command::Start(duration) => self.extend(now, duration),
            Command::Reset(duration) => self.extend(now, duration),
            Command::Extend(extra) => self.extend(now, extra),
            Command::Stop => {
                timer.stop();
                self.settle(true, timer);
                Ok(())
            },
            Command::Pause => {
                timer.pause_at(now);
                self.settle(true, timer);
                Ok(())
            },
            Command::Resume => {
                timer.resume_at(now);
                self.settle(self.is_paused && !timer.is_running(), timer);
                Ok(())
            },
            Command::NextStage => {
                let next = self.advance(now);
                Ok(())
            },
        }
    }

    /// Handles one message of the user interface at the reading `now`, and
    /// says what the caller has to do.
    pub fn update(&mut self, msg: AppMsg, now: TimePoint) -> (effect: Effect)
        ensures
            final(self).wf(),
            final(self)@ == old(self)@.update(msg, now@),
            effect == old(self)@.update_effect(msg, now@),
    {
        proof {
            use_type_invariant(&*self);
        }
        if !self.is_paused && !self.timer.is_running() {
            let mut timer = self.timer;
            timer.resume_at(now);
            self.settle(false, timer);
        }
        let mut show_dialog = false;
        let mut event: Option<Event> = None;
        match msg {
            AppMsg::CountDown => {
                let ticked = self.tick(now);
                show_dialog = ticked.show_dialog;
                event = ticked.event;
            },
            AppMsg::ResumeTimer => {
                let resumed = self.apply(Command::Resume, now);
                let ticked = self.tick(now);
                event = ticked.event;
            },
            AppMsg::PauseTimer => {
                let paused = self.apply(Command::Pause, now);
            },
            AppMsg::ResetTimer => {
                let started = self.extend(now, self.status.time_duration());
            },
            AppMsg::ExtendStage => {
                let started = self.extend(now, EXTEND_DURATION);
            },
            AppMsg::NextStage => {
                let next = self.advance(now);
            },
            AppMsg::NotifyToggled(on) => {
                self.is_notify = on;
            },
            AppMsg::AutoNextTaskToggled(on) => {
                self.is_auto_next_task = on;
            },
        }
        Effect { timer_active: !self.is_paused, show_dialog, event }
    }

    /// The status line of the session at the reading `now`: the time left,
    /// the stage's length, whether the session is paused, and the stage.
    pub fn get_label(&self, now: TimePoint) -> (s: String)
        ensures
            s@ == self@.label_text(now@),
    {
        let mut s = String::from_str("Timer ");
        s.append(show_time(self.timer.remaining_at(now)).as_str());
        s.append(" / ");
        s.append(show_time(self.status.time_duration()).as_str());
        s.append(" ");
        if self.is_paused {
            s.append(" Paused ");
        } else {
            s.append(" Running ");
        }
        s.append("| Status: ");
        s.append(self.status.debug_label().as_str());
        s
    }
}

impl Default for AppModel {
    fn default() -> (m: AppModel)
        ensures
            m.wf(),
            m@ == ModelState::initial(),
    {
        AppModel::new()
    }
}

} // verus!
