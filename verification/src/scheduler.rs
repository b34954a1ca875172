use crate::clock::TimePoint;
use crate::model::{
    law_later_stop_wins, law_session_stays_wf, AppModel, AppMsg, Command, Effect, ModelState,
};
use vstd::prelude::*;

verus! {

/// Seconds between two ticks of the scheduler loop.
pub const TICK_INTERVAL_SECS: u64 = 1;

/// Why the scheduler loop woke up.
#[derive(Clone, Copy, Debug, PartialEq, Eq, Structural)]
pub enum Wake {
    /// The tick interval has passed.
    TickDue,
    /// A command has arrived before the interval passed.
    CommandArrived,
}

/// How the scheduler loop goes on after a wake-up.
#[derive(Clone, Copy, Debug, PartialEq, Eq, Structural)]
pub enum Wait {
    /// Wait one tick interval, or less if a command arrives first.
    Tick,
    /// Suspend until a command arrives; no tick is pending.
    Command,
    /// Leave the loop.
    Exit,
}

/// What one wake-up of the scheduler loop did and how the loop goes on.
#[derive(Clone, Copy, Debug, PartialEq, Eq, Structural)]
pub struct WakeReport {
    /// How many of the drained commands were refused.
    pub rejected: usize,
    /// The outcome of the poll, if the countdown was polled.
    pub effect: Option<Effect>,
    pub next: Wait,
}

/// How the loop goes on: it leaves once either channel has lost its other
/// end, waits for the next tick while the countdown runs, and suspends
/// otherwise.
pub open spec fn wait_after(running: bool, commands_open: bool, events_open: bool) -> Wait {
    if !commands_open || !events_open {
        Wait::Exit
    } else if running {
        Wait::Tick
    } else {
        Wait::Command
    }
}

impl ModelState {
    /// Whether a wake-up at the reading `now` polls the countdown: on a tick
    /// while it runs, and whenever it has run out and that is yet to be
    /// reported.
    pub open spec fn polls_on(self, wake: Wake, now: nat) -> bool {
        (wake == Wake::TickDue && self.timer.running) || self.finishes(now)
    }

    /// The session after a wake-up at the reading `now` that found the
    /// commands `cmds` in the queue: they are applied first, in order.
    pub open spec fn wake(self, wake: Wake, cmds: Seq<Command>, now: nat) -> ModelState {
        let drained = self.apply_all(cmds, now);
        if drained.polls_on(wake, now) {
            drained.tick(now)
        } else {
            drained
        }
    }

    /// The outcome of the poll at such a wake-up, if the countdown is polled.
    pub open spec fn wake_effect(self, wake: Wake, cmds: Seq<Command>, now: nat) -> Option<
        Effect,
    > {
        let drained = self.apply_all(cmds, now);
        if drained.polls_on(wake, now) {
            Some(
                Effect {
                    timer_active: !drained.tick(now).paused,
                    show_dialog: drained.asks(now),
                    event: drained.timer.poll_event(now),
                },
            )
        } else {
            None
        }
    }
}

/// A wake-up whose last command is `Stop` leaves no tick pending: the
/// countdown rests, it is not polled, and the loop does not wait for a tick.
/// The same holds after `Pause`, unless the countdown had run out by then and
/// its end is still to be reported.
pub proof fn law_stop_cancels_tick(
    s: ModelState,
    wake: Wake,
    earlier: Seq<Command>,
    now: nat,
    commands_open: bool,
    events_open: bool,
)
    requires
        s.wf(),
    ensures
        s.wake(wake, earlier.push(Command::Stop), now).timer.at_rest(),
        s.wake_effect(wake, earlier.push(Command::Stop), now) is None,
        wait_after(
            s.wake(wake, earlier.push(Command::Stop), now).timer.running,
            commands_open,
            events_open,
        ) != Wait::Tick,
        !s.apply_all(earlier.push(Command::Pause), now).finishes(now) ==> {
            &&& s.wake_effect(wake, earlier.push(Command::Pause), now) is None
            &&& wait_after(
                s.wake(wake, earlier.push(Command::Pause), now).timer.running,
                commands_open,
                events_open,
            ) != Wait::Tick
        },
{
    law_later_stop_wins(s, earlier, now);
}

/// A wake-up keeps a well-formed session well-formed, polls the countdown at
/// most once, and does no polling while the countdown neither runs nor has
/// an end to report.
pub proof fn law_wake_is_idle_unless_running(
    s: ModelState,
    wake: Wake,
    cmds: Seq<Command>,
    now: nat,
)
    requires
        s.wf(),
    ensures
        s.wake(wake, cmds, now).wf(),
        !s.apply_all(cmds, now).timer.running && !s.apply_all(cmds, now).finishes(now)
            ==> s.wake(wake, cmds, now) == s.apply_all(cmds, now) && s.wake_effect(
            wake,
            cmds,
            now,
        ) is None,
{
    law_later_stop_wins(s, cmds, now);
    law_session_stays_wf(s.apply_all(cmds, now), Command::Stop, AppMsg::CountDown, now);
}

/// How the loop goes on, given whether the countdown runs and whether the
/// command and event channels still have their other ends.
pub fn next_wait(running: bool, commands_open: bool, events_open: bool) -> (w: Wait)
    ensures
        w == wait_after(running, commands_open, events_open),
{
    if !commands_open || !events_open {
        Wait::Exit
    } else if running {
        Wait::Tick
    } else {
        Wait::Command
    }
}

/// A request as the timer service receives it: a number of seconds to count,
/// where zero asks to stop.
pub fn decode_request(duration: u32) -> (cmd: Command)
    ensures
        duration == 0 ==> cmd == Command::Stop,
        duration > 0 ==> cmd == Command::Start(duration),
        !ModelState::rejects(cmd),
{
    if duration == 0 {
        Command::Stop
    } else {
        Command::Start(duration)
    }
}

/// Applies the queued commands in the order of their arrival, all at the
/// reading `now`, and counts those that were refused.
pub fn drain(model: &mut AppModel, commands: &Vec<Command>, now: TimePoint) -> (rejected: usize)
    ensures
        final(model).wf(),
        final(model)@ == old(model)@.apply_all(commands@, now@),
        rejected == ModelState::rejected_count(commands@),
{
    proof {
        use_type_invariant(&*model);
    }
    let mut rejected: usize = 0;
    let mut i: usize = 0;
    assert(commands@.take(0) =~= Seq::<Command>::empty());
    while i < commands.len()
        invariant
            i <= commands.len(),
            rejected <= i,
            model.wf(),
            model@ == old(model)@.apply_all(commands@.take(i as int), now@),
            rejected == ModelState::rejected_count(commands@.take(i as int)),
        decreases commands.len() - i,
    {
        proof {
            assert(commands@.take(i + 1).drop_last() =~= commands@.take(i as int));
            assert(commands@.take(i + 1).last() == commands@[i as int]);
        }
        match model.apply(commands[i], now) {
            Ok(()) => {},
            Err(_) => {
                rejected = rejected + 1;
            },
        }
        i = i + 1;
    }
    assert(commands@.take(commands@.len() as int) =~= commands@);
    rejected
}

/// One wake-up of the scheduler loop at the reading `now`: drains the queued
/// commands in order, polls the countdown where that is due, and decides how
/// the loop goes on.
pub fn on_wake(
    model: &mut AppModel,
    wake: Wake,
    commands: &Vec<Command>,
    now: TimePoint,
    commands_open: bool,
    events_open: bool,
) -> (report: WakeReport)
    ensures
        final(model).wf(),
        final(model)@ == old(model)@.wake(wake, commands@, now@),
        report.rejected == ModelState::rejected_count(commands@),
        report.effect == old(model)@.wake_effect(wake, commands@, now@),
        report.next == wait_after(final(model)@.timer.running, commands_open, events_open),
{
    let rejected = drain(model, commands, now);
    let tick_due = wake == Wake::TickDue && model.timer().is_running();
    let effect = if tick_due || model.timer().has_run_out_at(now) {
        Some(model.tick(now))
    } else {
        None
    };
    let running = model.timer().is_running();
    WakeReport { rejected, effect, next: next_wait(running, commands_open, events_open) }
}

/// What the ticker found in its queue, or what ended its wait.
#[derive(Clone, Copy, Debug, PartialEq, Eq, Structural)]
pub enum Polled {
    /// A message: whether to tick from now on.
    Message(bool),
    /// Nothing is queued.
    Empty,
    /// A wait of one tick interval passed without a message.
    TimedOut,
    /// The sender is gone.
    Disconnected,
}

/// What the ticker does next.
#[derive(Clone, Copy, Debug, PartialEq, Eq, Structural)]
pub enum TickerAction {
    /// Look into the queue again without waiting.
    PollAgain,
    /// Wait for a message, for one tick interval at most; a message that
    /// arrives ends the wait at once.
    WaitForTick,
    /// Send a count-down message, then look into the queue again.
    CountDown,
    /// Block until a message arrives.
    AwaitMessage,
    /// Leave the loop.
    Exit,
}

/// The ticker: the loop that sends a count-down message once per interval
/// while it is switched on, and sleeps on its queue while it is off.
#[derive(Clone, Copy, Debug, PartialEq, Eq, Structural)]
pub struct Ticker {
    pub active: bool,
}

impl Ticker {
    /// The ticker with `found` taken in.
    pub open spec fn after(self, found: Polled) -> Ticker {
        match found {
            Polled::Message(active) => Ticker { active },
            _ => self,
        }
    }

    /// What the ticker does once it has found `found`. It sends a count-down
    /// message only after a whole interval has passed without a message
    /// while it is switched on.
    pub open spec fn action(self, found: Polled) -> TickerAction {
        match found {
            Polled::Message(_) => TickerAction::PollAgain,
            Polled::Empty => if self.active {
                TickerAction::WaitForTick
            } else {
                TickerAction::AwaitMessage
            },
            Polled::TimedOut => if self.active {
                TickerAction::CountDown
            } else {
                TickerAction::PollAgain
            },
            Polled::Disconnected => TickerAction::Exit,
        }
    }

    /// How many count-down messages the ticker sends while it takes in
    /// `founds`, one after the other.
    pub open spec fn count_downs(self, founds: Seq<Polled>) -> nat
        decreases founds.len(),
    {
        if founds.len() == 0 {
            0
        } else {
            let first: nat = if self.action(founds[0]) == TickerAction::CountDown {
                1
            } else {
                0
            };
            first + self.after(founds[0]).count_downs(founds.drop_first())
        }
    }

    /// A ticker that is switched off.
    pub fn new() -> (t: Ticker)
        ensures
            !t.active,
    {
        Ticker { active: false }
    }

    /// Takes in what was found in the queue, or what ended the wait, and says
    /// what to do next. A count-down message is only ever asked for while the
    /// ticker is on and a whole interval has passed without a message.
    pub fn step(&mut self, found: Polled) -> (action: TickerAction)
        ensures
            *final(self) == old(self).after(found),
            action == old(self).action(found),
            action == TickerAction::CountDown <==> old(self).active && found == Polled::TimedOut,
            found == Polled::Message(false) ==> !final(self).active,
    {
        match found {
            Polled::Message(active) => {
                self.active = active;
                TickerAction::PollAgain
            },
            Polled::Empty => {
                if self.active {
                    TickerAction::WaitForTick
                } else {
                    TickerAction::AwaitMessage
                }
            },
            Polled::TimedOut => {
                if self.active {
                    TickerAction::CountDown
                } else {
                    TickerAction::PollAgain
                }
            },
            Polled::Disconnected => TickerAction::Exit,
        }
    }
}

/// A switch-off cancels the pending tick: from the moment it is taken in, no
/// count-down message is sent, whatever is found and however the waits end,
/// until a message switches the ticker on again.
pub proof fn law_switch_off_cancels_tick(t: Ticker, founds: Seq<Polled>)
    requires
        forall|i: int| 0 <= i < founds.len() ==> #[trigger] founds[i] != Polled::Message(true),
    ensures
        t.after(Polled::Message(false)).count_downs(founds) == 0,
        !t.active ==> t.count_downs(founds) == 0,
    decreases founds.len(),
{
    if founds.len() > 0 {
        assert(founds[0] != Polled::Message(true));
        assert forall|i: int| 0 <= i < founds.drop_first().len() implies #[trigger] founds.drop_first()[i]
            != Polled::Message(true) by {
            assert(founds.drop_first()[i] == founds[i + 1]);
        }
        let off = Ticker { active: false };
        law_switch_off_cancels_tick(off.after(founds[0]), founds.drop_first());
        assert(off.after(founds[0]) == off || off.after(founds[0]) == off.after(
            Polled::Message(false),
        ));
    }
}

impl Default for Ticker {
    fn default() -> (t: Ticker)
        ensures
            !t.active,
    {
        Ticker::new()
    }
}

} // verus!
