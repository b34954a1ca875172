use crate::model::{AppMsg, Command, ModelState};
use crate::status::Status;
use vstd::prelude::*;

verus! {

/// What the stage display asks of the session.
#[derive(Clone, Copy, Debug, PartialEq, Eq, Structural)]
pub enum PomodoroMsg {
    NotifyToggled(bool),
    AutoNextTaskToggled(bool),
    ExtendStage,
    NextStage,
}

impl PomodoroMsg {
    /// The session message that this request stands for.
    pub open spec fn app_msg(self) -> AppMsg {
        match self {
            PomodoroMsg::NotifyToggled(on) => AppMsg::NotifyToggled(on),
            PomodoroMsg::AutoNextTaskToggled(on) => AppMsg::AutoNextTaskToggled(on),
            PomodoroMsg::ExtendStage => AppMsg::ExtendStage,
            PomodoroMsg::NextStage => AppMsg::NextStage,
        }
    }

    /// The session message that this request stands for.
    pub fn to_app_msg(&self) -> (msg: AppMsg)
        ensures
            msg == self.app_msg(),
    {
        match self {
            PomodoroMsg::NotifyToggled(on) => AppMsg::NotifyToggled(*on),
            PomodoroMsg::AutoNextTaskToggled(on) => AppMsg::AutoNextTaskToggled(*on),
            PomodoroMsg::ExtendStage => AppMsg::ExtendStage,
            PomodoroMsg::NextStage => AppMsg::NextStage,
        }
    }
}

/// What the stage display shows, as a mathematical value.
pub struct PomodoroState {
    pub status: Status,
    /// Seconds left of the stage: what was last heard from the timer service,
    /// or the whole length of a stage that has just been loaded.
    pub time_left: u32,
    /// Whether the timer service has been told to count.
    pub running: bool,
}

impl PomodoroState {
    /// The stage is one of the cycle.
    pub open spec fn wf(self) -> bool {
        self.status.wf()
    }

    /// The display when it is first shown: the first focus stage, its whole
    /// length left, counting.
    pub open spec fn initial() -> PomodoroState {
        PomodoroState {
            status: Status::Focus(0),
            time_left: Status::Focus(0).duration(),
            running: true,
        }
    }

    /// What the timer service is to be told for this display: to count what
    /// is left while the display runs and something is left, to stop
    /// otherwise.
    pub open spec fn command(self) -> Command {
        if self.running && self.time_left > 0 {
            Command::Start(self.time_left)
        } else {
            Command::Stop
        }
    }

    /// The display after the service reported `time_left` seconds left. At
    /// zero the stage has ended: the display keeps the zero, stops and moves
    /// to the following stage.
    pub open spec fn on_tick(self, time_left: u32) -> PomodoroState {
        if time_left == 0 {
            PomodoroState { status: self.status.following(), time_left: 0, running: false }
        } else {
            PomodoroState { time_left, ..self }
        }
    }

    /// The display with the whole length of its stage left: what it shows
    /// once the stage has changed.
    pub open spec fn stage_loaded(self) -> PomodoroState {
        PomodoroState { time_left: self.status.duration(), ..self }
    }

    /// The display after the user pressed the run button.
    pub open spec fn toggle(self) -> PomodoroState {
        PomodoroState { running: !self.running, ..self }
    }
}

/// What the display has to pass on after a report of the timer service.
#[derive(Clone, Copy, Debug, PartialEq, Eq, Structural)]
pub struct TickNotice {
    /// The stage that has just ended, of which the user is to be notified.
    pub ended: Option<Status>,
    /// What to tell the timer service, if anything.
    pub command: Option<Command>,
}

/// The stage display of the front end. The timer service counts; the display
/// keeps what it last heard and whether it asked the service to count.
#[derive(Clone, Copy, Debug)]
pub struct Pomodoro {
    status: Status,
    time_left: u32,
    running: bool,
}

impl View for Pomodoro {
    type V = PomodoroState;

    closed spec fn view(&self) -> PomodoroState {
        PomodoroState { status: self.status, time_left: self.time_left, running: self.running }
    }
}

impl Pomodoro {
    /// Holds of every display at all times.
    #[verifier::type_invariant]
    pub open spec fn wf(&self) -> bool {
        self@.wf()
    }

    /// The display when it is first shown.
    pub fn new() -> (p: Pomodoro)
        ensures
            p.wf(),
            p@ == PomodoroState::initial(),
    {
        let status = Status::default();
        Pomodoro { status, time_left: status.time_duration(), running: true }
    }

    pub fn status(&self) -> (s: Status)
        ensures
            s == self@.status,
    {
        self.status
    }

    pub fn time_left(&self) -> (secs: u32)
        ensures
            secs == self@.time_left,
    {
        self.time_left
    }

    pub fn is_running(&self) -> (b: bool)
        ensures
            b == self@.running,
    {
        self.running
    }

    /// What the timer service is to be told for the display as it is. The
    /// command is never one that the service refuses: with nothing left to
    /// count it is told to stop.
    pub fn command(&self) -> (cmd: Command)
        ensures
            cmd == self@.command(),
            !ModelState::rejects(cmd),
    {
        if self.running && self.time_left > 0 {
            Command::Start(self.time_left)
        } else {
            Command::Stop
        }
    }

    /// Loads the whole length of the stage as the time left. The display
    /// does so whenever its stage has changed.
    pub fn load_stage_length(&mut self)
        ensures
            final(self).wf(),
            final(self)@ == old(self)@.stage_loaded(),
    {
        proof {
            use_type_invariant(&*self);
        }
        self.time_left = self.status.time_duration();
    }

    /// Takes in a report of `time_left` seconds from the timer service. At
    /// zero the stage has ended: the display keeps the zero, the user is to
    /// be notified of the stage that ended, the service is told to stop if
    /// it was counting for this display, and the display moves to the
    /// following stage.
    pub fn on_tick(&mut self, time_left: u32) -> (notice: TickNotice)
        ensures
            final(self).wf(),
            final(self)@ == old(self)@.on_tick(time_left),
            time_left == 0 ==> notice.ended == Some(old(self)@.status),
            time_left == 0 && old(self)@.running ==> notice.command == Some(Command::Stop),
            time_left == 0 && !old(self)@.running ==> notice.command is None,
            time_left > 0 ==> notice.ended is None && notice.command is None,
    {
        proof {
            use_type_invariant(&*self);
        }
        if time_left == 0 {
            let ended = self.status;
            let command = if self.running {
                Some(Command::Stop)
            } else {
                None
            };
            self.time_left = 0;
            self.running = false;
            self.status = ended.try_next();
            TickNotice { ended: Some(ended), command }
        } else {
            self.time_left = time_left;
            TickNotice { ended: None, command: None }
        }
    }

    /// Flips between counting and standing still, as the run button does,
    /// and gives the command that tells the timer service so.
    pub fn toggle(&mut self) -> (cmd: Command)
        ensures
            final(self).wf(),
            final(self)@ == old(self)@.toggle(),
            cmd == final(self)@.command(),
            !ModelState::rejects(cmd),
    {
        proof {
            use_type_invariant(&*self);
        }
        self.running = !self.running;
        self.command()
    }
}

impl Default for Pomodoro {
    fn default() -> (p: Pomodoro)
        ensures
            p.wf(),
            p@ == PomodoroState::initial(),
    {
        Pomodoro::new()
    }
}

/// What the confirmation dialog is told.
#[derive(Clone, Copy, Debug, PartialEq, Eq, Structural)]
pub enum DialogMsg {
    Show,
    /// The user chose to start the next stage.
    Accept,
    /// The user chose to postpone the end of the stage.
    PartialAccept,
    /// The user chose to leave the countdown stopped.
    Cancel,
}

/// The confirmation dialog that asks how to go on when a stage has run out.
#[derive(Clone, Copy, Debug, PartialEq, Eq, Structural)]
pub struct DialogModel {
    pub hidden: bool,
}

impl DialogModel {
    /// What the session is told when the dialog receives `msg`.
    pub open spec fn decision(msg: DialogMsg) -> Option<AppMsg> {
        match msg {
            DialogMsg::Accept => Some(AppMsg::NextStage),
            DialogMsg::PartialAccept => Some(AppMsg::ExtendStage),
            _ => None,
        }
    }

    /// The dialog as it is when the session starts: hidden.
    pub fn init_model() -> (d: DialogModel)
        ensures
            d.hidden,
    {
        DialogModel { hidden: true }
    }

    /// Takes in one message. The dialog is shown on `Show` and hidden by
    /// every answer; the answer's decision, if it is one, is handed on to the
    /// session.
    pub fn update(&mut self, msg: DialogMsg) -> (forward: Option<AppMsg>)
        ensures
            final(self).hidden == (msg != DialogMsg::Show),
            forward == Self::decision(msg),
    {
        match msg {
            DialogMsg::Show => {
                self.hidden = false;
                None
            },
            DialogMsg::Accept => {
                self.hidden = true;
                Some(AppMsg::NextStage)
            },
            DialogMsg::PartialAccept => {
                self.hidden = true;
                Some(AppMsg::ExtendStage)
            },
            DialogMsg::Cancel => {
                self.hidden = true;
                None
            },
        }
    }
}

} // verus!
