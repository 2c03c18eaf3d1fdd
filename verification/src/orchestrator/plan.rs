//! The steps of a run: what each event leads to.

use crate::parse::{escalation_command, escalation_spec, Permissions};
use crate::perm_guard::{Restoration, Switch};
use crate::touchpad::error::{TouchpadError, TouchpadErrorView};
use crate::touchpad::notify::{
    delivery, delivery_spec, pkexec_send, pkexec_send_spec, sudo_send, sudo_send_spec, Command,
    CommandView, Completion, SessionEnv, SessionEnvView,
};
use crate::touchpad::{
    decode_flag, encode_flag, find_touchpad, flag_path, malformed, message_for, not_found,
    read_flag, status_message, InputDevice, InputDeviceView, TouchPad, TouchPadView, NOTIFY_MS,
};
use crate::user::Identity;
use vstd::prelude::*;

verus! {

/// How far a run has come: what it waits for.
#[derive(Clone, Copy, Debug, PartialEq, Eq, Structural)]
pub enum Phase {
    /// Nothing was done yet.
    Start,
    /// The escalation helper runs.
    Escalating,
    /// The input devices are being listed.
    Locating,
    /// The flag file is being read, to switch the touchpad.
    Reading,
    /// The flag file is being written.
    Writing,
    /// The flag file is being read, to announce what it holds.
    Checking,
    /// The identity of the process is being changed, to announce the state `inhibited`.
    Switching { inhibited: bool },
    /// The notifier runs; `guarded` where the process took another identity for it.
    Notifying { guarded: bool },
    /// The identity of the process is being given back.
    Restoring,
    /// The run is over.
    Done,
}

/// What the caller reports back.
#[derive(Debug, PartialEq, Eq)]
pub enum Event {
    /// The run begins.
    Begin,
    /// The escalation helper ended.
    Escalated(Completion),
    /// The input devices were listed; `None` where the listing could not be set up.
    Devices(Option<Vec<InputDevice>>),
    /// The flag file was read: its content, or the system's words for why not.
    FlagRead(Result<String, String>),
    /// The flag file was written, or the system's words for why not.
    FlagWritten(Result<(), String>),
    /// The identity of the process was changed, or was not.
    Switched(Switch),
    /// The identity of the process was given back, as far as `Restoration` says.
    Restored(Restoration),
    /// The notifier ended.
    Notified(Completion),
}

/// An `Event` as sequences of characters.
pub enum EventView {
    Begin,
    Escalated(Completion),
    Devices(Option<Seq<InputDeviceView>>),
    FlagRead(Result<Seq<char>, Seq<char>>),
    FlagWritten(Result<(), Seq<char>>),
    Switched(Switch),
    Restored(Restoration),
    Notified(Completion),
}

impl View for Event {
    type V = EventView;

    open spec fn view(&self) -> EventView {
        match self {
            Event::Begin => EventView::Begin,
            Event::Escalated(done) => EventView::Escalated(*done),
            Event::Devices(devices) => EventView::Devices(devices.deep_view()),
            Event::FlagRead(Ok(content)) => EventView::FlagRead(Ok(content@)),
            Event::FlagRead(Err(why)) => EventView::FlagRead(Err(why@)),
            Event::FlagWritten(Ok(_)) => EventView::FlagWritten(Ok(())),
            Event::FlagWritten(Err(why)) => EventView::FlagWritten(Err(why@)),
            Event::Switched(outcome) => EventView::Switched(*outcome),
            Event::Restored(restoration) => EventView::Restored(*restoration),
            Event::Notified(done) => EventView::Notified(*done),
        }
    }
}

/// What is to be done next.
#[derive(Debug, PartialEq, Eq)]
pub enum Action {
    /// Run the escalation helper and report how it ended.
    Escalate { command: Command },
    /// List the input devices.
    Enumerate,
    /// Read the flag file.
    ReadFlag { path: String },
    /// Write `content` to the flag file.
    WriteFlag { path: String, content: String },
    /// Take the identity `target` until `Restore`.
    DropTo { target: Identity },
    /// Take the identity `target` for good.
    Become { target: Identity },
    /// Give back the identity that was in force before `DropTo`.
    Restore,
    /// Run the notifier and report how it ended.
    Notify { command: Command },
    /// End the program with status `code`.
    Exit { code: i32 },
}

/// An `Action` as sequences of characters.
pub enum ActionView {
    Escalate { command: CommandView },
    Enumerate,
    ReadFlag { path: Seq<char> },
    WriteFlag { path: Seq<char>, content: Seq<char> },
    DropTo { target: Identity },
    Become { target: Identity },
    Restore,
    Notify { command: CommandView },
    Exit { code: i32 },
}

impl View for Action {
    type V = ActionView;

    open spec fn view(&self) -> ActionView {
        match self {
            Action::Escalate { command } => ActionView::Escalate { command: command@ },
            Action::Enumerate => ActionView::Enumerate,
            Action::ReadFlag { path } => ActionView::ReadFlag { path: path@ },
            Action::WriteFlag { path, content } => ActionView::WriteFlag {
                path: path@,
                content: content@,
            },
            Action::DropTo { target } => ActionView::DropTo { target: *target },
            Action::Become { target } => ActionView::Become { target: *target },
            Action::Restore => ActionView::Restore,
            Action::Notify { command } => ActionView::Notify { command: command@ },
            Action::Exit { code } => ActionView::Exit { code: *code },
        }
    }
}

impl ActionView {
    /// Whether the action changes the identity of the process, which this module does
    /// itself.
    pub open spec fn is_switch(self) -> bool {
        self is DropTo || self is Become || self is Restore
    }

    /// Whether the action writes the flag file.
    pub open spec fn is_write(self) -> bool {
        self is WriteFlag
    }
}

/// The state of a run: the way it was asked to go, how far it has come, and what it has
/// found on the way.
#[derive(Debug)]
pub struct Plan {
    mode: Permissions,
    phase: Phase,
    program: String,
    session: SessionEnv,
    touchpad: Option<TouchPad>,
    status: i32,
}

/// A `Plan` as sequences of characters.
pub struct PlanView {
    /// The way to run.
    pub mode: Permissions,
    /// What the run waits for.
    pub phase: Phase,
    /// The path of this program, for the escalation helper to start.
    pub program: Seq<char>,
    /// The desktop session to announce in.
    pub session: SessionEnvView,
    /// The touchpad, once it is found.
    pub touchpad: Option<TouchPadView>,
    /// The exit status that the run ends with unless it fails.
    pub status: i32,
}

/// One step: the state behind it, the action it asks for, and what it has to report.
pub struct StepView {
    pub plan: PlanView,
    pub action: ActionView,
    pub diagnostic: Option<TouchpadErrorView>,
}

/// The error for an escalation helper that could not be started.
pub open spec fn helper_missing() -> TouchpadErrorView {
    TouchpadErrorView::PrivDrop("pkexec 执行失败"@)
}

/// The error for an identity that the process could not take.
pub open spec fn switch_refused() -> TouchpadErrorView {
    TouchpadErrorView::PrivDrop("无法切换到目标用户"@)
}

/// The error for an identity that the process could not give back.
pub open spec fn restore_refused() -> TouchpadErrorView {
    TouchpadErrorView::PrivDrop("无法恢复原用户身份"@)
}

/// The step that ends the run with status `code`.
pub open spec fn end(plan: PlanView, code: i32, diagnostic: Option<TouchpadErrorView>) -> StepView {
    StepView {
        plan: PlanView { phase: Phase::Done, status: code, ..plan },
        action: ActionView::Exit { code },
        diagnostic,
    }
}

/// The step that goes on to `phase` with `action`.
pub open spec fn proceed(plan: PlanView, phase: Phase, action: ActionView) -> StepView {
    StepView { plan: PlanView { phase, ..plan }, action, diagnostic: None }
}

/// The step that announces the state `inhibited`: through `sudo` where the process has
/// taken the user's identity for a while, directly otherwise.
pub open spec fn announce(plan: PlanView, inhibited: bool, guarded: bool) -> StepView {
    let message = status_message(inhibited);
    let command = if guarded {
        sudo_send_spec(message, NOTIFY_MS, plan.session)
    } else {
        pkexec_send_spec(message, NOTIFY_MS)
    };
    proceed(plan, Phase::Notifying { guarded }, ActionView::Notify { command })
}

/// The first step. A process without privileges starts the helper; any other looks for the
/// touchpad.
pub open spec fn on_begin(plan: PlanView, event: EventView) -> StepView {
    match (event, plan.mode) {
        (EventView::Begin, Permissions::NeedsEscalation { target }) => proceed(
            plan,
            Phase::Escalating,
            ActionView::Escalate { command: escalation_spec(target, plan.program) },
        ),
        (EventView::Begin, _) => proceed(plan, Phase::Locating, ActionView::Enumerate),
        _ => end(plan, 1, None),
    }
}

/// After the helper. Its exit code becomes the status of this run (1 where a signal ended
/// it), and the touchpad is looked for; a helper that did not start ends the run.
pub open spec fn on_escalated(plan: PlanView, event: EventView) -> StepView {
    match event {
        EventView::Escalated(Completion::Finished { code }) => proceed(
            PlanView {
                status: match code {
                    Some(c) => c,
                    None => 1,
                },
                ..plan
            },
            Phase::Locating,
            ActionView::Enumerate,
        ),
        EventView::Escalated(Completion::NotStarted) => end(plan, 1, Some(helper_missing())),
        _ => end(plan, 1, None),
    }
}

/// After the listing. With a touchpad among the devices its flag file is read: to switch
/// it, or, behind the helper, to announce what the helper's child left. Without one the run
/// ends with status 1.
pub open spec fn on_devices(plan: PlanView, event: EventView) -> StepView {
    match event {
        EventView::Devices(Some(devices)) => match find_touchpad(devices) {
            Some(dir) => {
                let target = plan.mode.target_of();
                let touchpad = TouchPadView {
                    uid: target.uid,
                    gid: target.gid,
                    path: flag_path(dir),
                };
                proceed(
                    PlanView { touchpad: Some(touchpad), ..plan },
                    if plan.mode is NeedsEscalation {
                        Phase::Checking
                    } else {
                        Phase::Reading
                    },
                    ActionView::ReadFlag { path: touchpad.path },
                )
            },
            None => end(plan, 1, Some(not_found())),
        },
        EventView::Devices(None) => end(plan, 1, Some(not_found())),
        _ => end(plan, 1, None),
    }
}

/// After the first reading. The opposite of what the file holds is written; a file that
/// cannot be read, or holds no flag, ends the run with status 1.
pub open spec fn on_read(plan: PlanView, event: EventView) -> StepView {
    match (event, plan.touchpad) {
        (EventView::FlagRead(Ok(content)), Some(touchpad)) => match decode_flag(content) {
            Some(inhibited) => proceed(
                plan,
                Phase::Writing,
                ActionView::WriteFlag { path: touchpad.path, content: encode_flag(!inhibited) },
            ),
            None => end(plan, 1, Some(malformed())),
        },
        (EventView::FlagRead(Err(why)), _) => end(plan, 1, Some(TouchpadErrorView::Io(why))),
        _ => end(plan, 1, None),
    }
}

/// After the writing. The file is read again, so that what is announced is what it holds
/// now; a file that could not be written ends the run with status 1.
pub open spec fn on_written(plan: PlanView, event: EventView) -> StepView {
    match (event, plan.touchpad) {
        (EventView::FlagWritten(Ok(_)), Some(touchpad)) => proceed(
            plan,
            Phase::Checking,
            ActionView::ReadFlag { path: touchpad.path },
        ),
        (EventView::FlagWritten(Err(why)), _) => end(plan, 1, Some(TouchpadErrorView::Io(why))),
        _ => end(plan, 1, None),
    }
}

/// After the second reading. A privileged process first takes the user's identity, for a
/// while or, as the helper's child, for good; one without privileges announces at once.
pub open spec fn on_checked(plan: PlanView, event: EventView) -> StepView {
    match event {
        EventView::FlagRead(Ok(content)) => match decode_flag(content) {
            Some(inhibited) => match plan.mode {
                Permissions::AlreadyPrivileged { target } => proceed(
                    plan,
                    Phase::Switching { inhibited },
                    ActionView::DropTo { target },
                ),
                Permissions::ReEnteredPrivileged { target } => proceed(
                    plan,
                    Phase::Switching { inhibited },
                    ActionView::Become { target },
                ),
                Permissions::NeedsEscalation { .. } => announce(plan, inhibited, false),
            },
            None => end(plan, 1, Some(malformed())),
        },
        EventView::FlagRead(Err(why)) => end(plan, 1, Some(TouchpadErrorView::Io(why))),
        _ => end(plan, 1, None),
    }
}

/// After the change of identity. Where it was refused nothing is announced, and the run
/// ends with the status it had.
pub open spec fn on_switched(plan: PlanView, event: EventView, inhibited: bool) -> StepView {
    match event {
        EventView::Switched(Switch::Granted) => announce(
            plan,
            inhibited,
            plan.mode is AlreadyPrivileged,
        ),
        EventView::Switched(_) => end(plan, plan.status, Some(switch_refused())),
        _ => end(plan, 1, None),
    }
}

/// After the notifier. However it ended, the status of the run stays; an identity taken
/// for a while is given back.
pub open spec fn on_notified(plan: PlanView, event: EventView, guarded: bool) -> StepView {
    let (status, diagnostic) = match event {
        EventView::Notified(done) => (
            plan.status,
            match delivery_spec(done) {
                Ok(_) => None,
                Err(e) => Some(e),
            },
        ),
        _ => (1i32, None),
    };
    if guarded {
        StepView {
            plan: PlanView { phase: Phase::Restoring, status, ..plan },
            action: ActionView::Restore,
            diagnostic,
        }
    } else {
        end(plan, status, diagnostic)
    }
}

/// After the restoration. The run ends with the status it had, whether the identity is
/// back or not.
pub open spec fn on_restored(plan: PlanView, event: EventView) -> StepView {
    match event {
        EventView::Restored(restoration) => end(
            plan,
            plan.status,
            if restoration.is_complete() {
                None
            } else {
                Some(restore_refused())
            },
        ),
        _ => end(plan, 1, None),
    }
}

/// The step that `event` leads to from `plan`. An event that does not answer the action
/// the run waits for ends it with status 1, after the identity was given back where it was
/// taken for a while. Once over, a run stays over.
pub open spec fn step(plan: PlanView, event: EventView) -> StepView {
    match plan.phase {
        Phase::Start => on_begin(plan, event),
        Phase::Escalating => on_escalated(plan, event),
        Phase::Locating => on_devices(plan, event),
        Phase::Reading => on_read(plan, event),
        Phase::Writing => on_written(plan, event),
        Phase::Checking => on_checked(plan, event),
        Phase::Switching { inhibited } => on_switched(plan, event, inhibited),
        Phase::Notifying { guarded } => on_notified(plan, event, guarded),
        Phase::Restoring => on_restored(plan, event),
        Phase::Done => end(plan, plan.status, None),
    }
}

/// What a step gives back: the next action, and what there is to report to the user.
#[derive(Debug, PartialEq, Eq)]
pub struct Step {
    pub action: Action,
    pub diagnostic: Option<TouchpadError>,
}

impl Step {
    /// This step as sequences of characters, with the state `plan` behind it.
    pub open spec fn leading_to(self, plan: PlanView) -> StepView {
        StepView { plan, action: self.action@, diagnostic: self.diagnostic.deep_view() }
    }
}

impl View for Plan {
    type V = PlanView;

    closed spec fn view(&self) -> PlanView {
        PlanView {
            mode: self.mode,
            phase: self.phase,
            program: self.program@,
            session: self.session@,
            touchpad: match self.touchpad {
                Some(t) => Some(t@),
                None => None,
            },
            status: self.status,
        }
    }
}

impl Plan {
    /// A run that has not begun, for the way `mode`. `program` is the path of this
    /// program, and `session` what the environment says of the desktop session.
    pub fn new(mode: Permissions, program: String, session: SessionEnv) -> (r: Plan)
        ensures
            r@ == (PlanView {
                mode,
                phase: Phase::Start,
                program: program@,
                session: session@,
                touchpad: None,
                status: 0,
            }),
    {
        Plan { mode, phase: Phase::Start, program, session, touchpad: None, status: 0 }
    }

    /// The way to run.
    pub fn mode(&self) -> (r: Permissions)
        ensures
            r == self@.mode,
    {
        self.mode
    }

    /// What the run waits for.
    pub fn phase(&self) -> (r: Phase)
        ensures
            r == self@.phase,
    {
        self.phase
    }

    /// The exit status that the run ends with unless it fails.
    pub fn status(&self) -> (r: i32)
        ensures
            r == self@.status,
    {
        self.status
    }

    fn finish(&mut self, code: i32, diagnostic: Option<TouchpadError>) -> (r: Step)
        ensures
            end(old(self)@, code, diagnostic.deep_view()) == r.leading_to(final(self)@),
    {
        self.phase = Phase::Done;
        self.status = code;
        Step { action: Action::Exit { code }, diagnostic }
    }

    fn go(&mut self, phase: Phase, action: Action) -> (r: Step)
        ensures
            proceed(old(self)@, phase, action@) == r.leading_to(final(self)@),
    {
        self.phase = phase;
        Step { action, diagnostic: None }
    }

    fn announce(&mut self, inhibited: bool, guarded: bool) -> (r: Step)
        ensures
            announce(old(self)@, inhibited, guarded) == r.leading_to(final(self)@),
    {
        let message = message_for(inhibited);
        let command = if guarded {
            sudo_send(message, NOTIFY_MS, &self.session)
        } else {
            pkexec_send(message, NOTIFY_MS)
        };
        self.go(Phase::Notifying { guarded }, Action::Notify { command })
    }

    fn on_begin(&mut self, event: Event) -> (r: Step)
        ensures
            on_begin(old(self)@, event@) == r.leading_to(final(self)@),
    {
        match event {
            Event::Begin => match self.mode {
                Permissions::NeedsEscalation { target } => {
                    let command = escalation_command(target, self.program.as_str());
                    self.go(Phase::Escalating, Action::Escalate { command })
                },
                _ => self.go(Phase::Locating, Action::Enumerate),
            },
            _ => self.finish(1, None),
        }
    }

    fn on_escalated(&mut self, event: Event) -> (r: Step)
        ensures
            on_escalated(old(self)@, event@) == r.leading_to(final(self)@),
    {
        match event {
            Event::Escalated(Completion::Finished { code }) => {
                self.status = match code {
                    Some(c) => c,
                    None => 1,
                };
                self.go(Phase::Locating, Action::Enumerate)
            },
            Event::Escalated(Completion::NotStarted) => self.finish(
                1,
                Some(TouchpadError::PrivDrop("pkexec 执行失败")),
            ),
            _ => self.finish(1, None),
        }
    }

    fn on_devices(&mut self, event: Event) -> (r: Step)
        ensures
            on_devices(old(self)@, event@) == r.leading_to(final(self)@),
    {
        match event {
            Event::Devices(Some(devices)) => {
                let target = self.mode.target();
                match TouchPad::new(target.uid, target.gid, &devices) {
                    Ok(touchpad) => {
                        let path = String::from_str(touchpad.path());
                        self.touchpad = Some(touchpad);
                        let phase = match self.mode {
                            Permissions::NeedsEscalation { .. } => Phase::Checking,
                            _ => Phase::Reading,
                        };
                        self.go(phase, Action::ReadFlag { path })
                    },
                    Err(e) => self.finish(1, Some(e)),
                }
            },
            Event::Devices(None) => self.finish(1, Some(TouchpadError::Sysfs("未找到触摸板"))),
            _ => self.finish(1, None),
        }
    }

    fn on_read(&mut self, event: Event) -> (r: Step)
        ensures
            on_read(old(self)@, event@) == r.leading_to(final(self)@),
    {
        match event {
            Event::FlagRead(Ok(content)) => {
                let toggled = match &self.touchpad {
                    Some(touchpad) => Some(
                        (String::from_str(touchpad.path()), touchpad.toggle(content.as_str())),
                    ),
                    None => None,
                };
                match toggled {
                    Some((path, Ok(written))) => self.go(
                        Phase::Writing,
                        Action::WriteFlag { path, content: String::from_str(written) },
                    ),
                    Some((_, Err(e))) => self.finish(1, Some(e)),
                    None => self.finish(1, None),
                }
            },
            Event::FlagRead(Err(why)) => self.finish(1, Some(TouchpadError::Io(why))),
            _ => self.finish(1, None),
        }
    }

    fn on_written(&mut self, event: Event) -> (r: Step)
        ensures
            on_written(old(self)@, event@) == r.leading_to(final(self)@),
    {
        match event {
            Event::FlagWritten(Ok(_)) => {
                let path = match &self.touchpad {
                    Some(touchpad) => Some(String::from_str(touchpad.path())),
                    None => None,
                };
                match path {
                    Some(path) => self.go(Phase::Checking, Action::ReadFlag { path }),
                    None => self.finish(1, None),
                }
            },
            Event::FlagWritten(Err(why)) => self.finish(1, Some(TouchpadError::Io(why))),
            _ => self.finish(1, None),
        }
    }

    fn on_checked(&mut self, event: Event) -> (r: Step)
        ensures
            on_checked(old(self)@, event@) == r.leading_to(final(self)@),
    {
        match event {
            Event::FlagRead(Ok(content)) => {
                match read_flag(content.as_str()) {
                    Ok(inhibited) => match self.mode {
                        Permissions::AlreadyPrivileged { target } => self.go(
                            Phase::Switching { inhibited },
                            Action::DropTo { target },
                        ),
                        Permissions::ReEnteredPrivileged { target } => self.go(
                            Phase::Switching { inhibited },
                            Action::Become { target },
                        ),
                        Permissions::NeedsEscalation { .. } => self.announce(inhibited, false),
                    },
                    Err(e) => self.finish(1, Some(e)),
                }
            },
            Event::FlagRead(Err(why)) => self.finish(1, Some(TouchpadError::Io(why))),
            _ => self.finish(1, None),
        }
    }

    fn on_switched(&mut self, event: Event, inhibited: bool) -> (r: Step)
        ensures
            on_switched(old(self)@, event@, inhibited) == r.leading_to(final(self)@),
    {
        match event {
            Event::Switched(Switch::Granted) => {
                let guarded = match self.mode {
                    Permissions::AlreadyPrivileged { .. } => true,
                    _ => false,
                };
                self.announce(inhibited, guarded)
            },
            Event::Switched(_) => {
                let status = self.status;
                self.finish(status, Some(TouchpadError::PrivDrop("无法切换到目标用户")))
            },
            _ => self.finish(1, None),
        }
    }

    fn on_notified(&mut self, event: Event, guarded: bool) -> (r: Step)
        ensures
            on_notified(old(self)@, event@, guarded) == r.leading_to(final(self)@),
    {
        let (status, diagnostic) = match event {
            Event::Notified(done) => (
                self.status,
                match delivery(done) {
                    Ok(_) => None,
                    Err(e) => Some(e),
                },
            ),
            _ => (1, None),
        };
        if guarded {
            self.phase = Phase::Restoring;
            self.status = status;
            Step { action: Action::Restore, diagnostic }
        } else {
            self.finish(status, diagnostic)
        }
    }

    fn on_restored(&mut self, event: Event) -> (r: Step)
        ensures
            on_restored(old(self)@, event@) == r.leading_to(final(self)@),
    {
        match event {
            Event::Restored(restoration) => {
                let status = self.status;
                let diagnostic = if restoration.complete() {
                    None
                } else {
                    Some(TouchpadError::PrivDrop("无法恢复原用户身份"))
                };
                self.finish(status, diagnostic)
            },
            _ => self.finish(1, None),
        }
    }

    /// Takes `event` and gives the next action.
    pub fn step(&mut self, event: Event) -> (r: Step)
        ensures
            step(old(self)@, event@) == r.leading_to(final(self)@),
    {
        match self.phase {
            Phase::Start => self.on_begin(event),
            Phase::Escalating => self.on_escalated(event),
            Phase::Locating => self.on_devices(event),
            Phase::Reading => self.on_read(event),
            Phase::Writing => self.on_written(event),
            Phase::Checking => self.on_checked(event),
            Phase::Switching { inhibited } => self.on_switched(event, inhibited),
            Phase::Notifying { guarded } => self.on_notified(event, guarded),
            Phase::Restoring => self.on_restored(event),
            Phase::Done => {
                let status = self.status;
                self.finish(status, None)
            },
        }
    }
}

} // verus!
