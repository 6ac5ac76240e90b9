//! The controller of the daemon: the order of its start, and how it follows
//! the controller device through disconnects.
//!
//! The controller never acts itself. It hands out the next action, the
//! caller performs it and reports what happened, and the controller answers
//! with the action after that. At the start the virtual keyboard is created,
//! then the process is confined, then it gives up its privileges: in this
//! order and each at most once. After that the daemon searches for the
//! device, reads from it while it is there, and on its loss either ends or
//! searches again.

use crate::joycon::{announces_joycon, HotplugEvent};
use crate::translate::{Click, InputReport, KeyMapping};
use vstd::prelude::*;

verus! {

/// Error number of a read from a device that is gone.
pub const ENODEV: i32 = 19;

/// How long to wait, in milliseconds, between the event that announces the
/// device and the search for it. The kernel may announce the device before
/// its node can be opened; the value is a matter of experience, not a bound.
pub const HOTPLUG_GRACE_MILLIS: u64 = 2000;

/// Exit code of a daemon that ends because its device left.
pub const EXIT_SUCCESS: i32 = 0;

/// Exit code of a daemon that ends because something failed.
pub const EXIT_FAILURE: i32 = 1;

/// What the daemon was started with.
#[derive(Clone, Copy, Debug, PartialEq, Eq, Structural)]
pub struct Settings {
    /// Whether the process is to be confined.
    pub sandbox: bool,
    /// Whether the process is to switch to another user.
    pub switch_user: bool,
    /// Whether the daemon waits for the device to come back when it leaves.
    pub background: bool,
    /// The wait between the announcement of the device and the search for it.
    pub grace_millis: u64,
}

impl Settings {
    /// Settings with the usual wait after an announcement.
    pub fn new(sandbox: bool, switch_user: bool, background: bool) -> (settings: Settings)
        ensures
            settings == (Settings {
                sandbox,
                switch_user,
                background,
                grace_millis: HOTPLUG_GRACE_MILLIS,
            }),
    {
        Settings { sandbox, switch_user, background, grace_millis: HOTPLUG_GRACE_MILLIS }
    }
}

/// Where the daemon stands with its device.
#[derive(Clone, Copy, Debug, PartialEq, Eq, Structural)]
pub enum LifecycleState {
    /// No device is held; one is being looked or waited for.
    Searching,
    /// A device is held and read from.
    Connected,
    /// The device left and the daemon does not wait for another. Passed
    /// through on the way to `Terminated`, never stayed in.
    DisconnectedForeground,
    /// The device left and the daemon waits for another. Passed through on
    /// the way to `Searching`, never stayed in.
    DisconnectedBackground,
    /// The daemon has ended.
    Terminated,
}

/// Where the daemon stands as a whole: at one of the steps of its start, or
/// in the life with its device.
#[derive(Clone, Copy, Debug, PartialEq, Eq, Structural)]
pub enum Phase {
    /// The virtual keyboard is being created.
    CreatingDevice,
    /// The process is being barred from gaining privileges.
    RestrictingPrivileges,
    /// The process is being confined.
    Confining,
    /// The process is switching to the other user.
    SwitchingIdentity,
    /// The start is over.
    Running(LifecycleState),
}

/// What the caller is to do next.
#[derive(Clone, Copy, Debug, PartialEq, Eq, Structural)]
pub enum Action {
    /// Create the virtual keyboard. Answered by `Succeeded` or `Failed`.
    CreateVirtualDevice,
    /// Bar the process from gaining privileges. Answered by `Succeeded` or
    /// `Failed`.
    SetNoNewPrivileges,
    /// Confine the process, with `setuid` still allowed or not. Answered by
    /// `Succeeded` or `Failed`.
    Confine { allow_setuid: bool },
    /// Switch to the other user. Answered by `Succeeded` or `Failed`.
    SwitchIdentity,
    /// Look for the device among those present. Answered by `Discovered`.
    Discover,
    /// Wait for the next event of the kernel. Answered by `Hotplug`.
    AwaitHotplug,
    /// Wait for the given time. Answered by `Elapsed`.
    Delay { millis: u64 },
    /// Read reports from the device. Answered by `Reports` or `ReadFailed`.
    ReadReports,
    /// End the process with the given code.
    Exit { code: i32 },
}

/// What happened when the caller did what it was told.
#[derive(Clone, Debug)]
pub enum Event {
    /// A step of the start was taken.
    Succeeded,
    /// A step of the start could not be taken.
    Failed,
    /// The devices present were looked through.
    Discovered { found: bool },
    /// The kernel sent an event.
    Hotplug(HotplugEvent),
    /// The wait is over.
    Elapsed,
    /// The device handed over a batch of reports.
    Reports(Vec<InputReport>),
    /// Reading from the device failed, with this error number of the
    /// operating system if it has one.
    ReadFailed { os_error: Option<i32> },
}

/// The answer to an event: the clicks to emit first, in this order, and then
/// the next action. A click that cannot be emitted is reported and passed
/// over; it ends nothing.
#[derive(Debug)]
pub struct Step {
    pub clicks: Vec<Click>,
    pub action: Action,
}

/// The daemon ends because something failed.
pub open spec fn fatal() -> (Phase, Action) {
    (Phase::Running(LifecycleState::Terminated), Action::Exit { code: EXIT_FAILURE })
}

/// The daemon begins its life with the device: it looks for it.
pub open spec fn enter_search() -> (Phase, Action) {
    (Phase::Running(LifecycleState::Searching), Action::Discover)
}

/// What follows the confinement, or its place where there is none: the switch
/// of the user if one is wanted, else the search for the device.
pub open spec fn after_confinement(settings: Settings) -> (Phase, Action) {
    if settings.switch_user {
        (Phase::SwitchingIdentity, Action::SwitchIdentity)
    } else {
        enter_search()
    }
}

/// What follows the creation of the virtual keyboard: the confinement if one
/// is wanted, which begins by barring new privileges.
pub open spec fn after_device(settings: Settings) -> (Phase, Action) {
    if settings.sandbox {
        (Phase::RestrictingPrivileges, Action::SetNoNewPrivileges)
    } else {
        after_confinement(settings)
    }
}

/// The state that the loss of the device leads through.
pub open spec fn disconnected(background: bool) -> LifecycleState {
    if background {
        LifecycleState::DisconnectedBackground
    } else {
        LifecycleState::DisconnectedForeground
    }
}

/// Where the daemon goes from a state that it only passes through: to its
/// end, in good order, or back to the search.
pub open spec fn settle(state: LifecycleState) -> (Phase, Action) {
    match state {
        LifecycleState::DisconnectedBackground => enter_search(),
        _ => (Phase::Running(LifecycleState::Terminated), Action::Exit { code: EXIT_SUCCESS }),
    }
}

/// Whether `event` is an answer to `action`: what can have happened when the
/// caller did what it was told. Nothing answers the end of the process.
pub open spec fn answers(action: Action, event: Event) -> bool {
    match action {
        Action::CreateVirtualDevice
        | Action::SetNoNewPrivileges
        | Action::Confine { .. }
        | Action::SwitchIdentity => event is Succeeded || event is Failed,
        Action::Discover => event is Discovered,
        Action::AwaitHotplug => event is Hotplug,
        Action::Delay { .. } => event is Elapsed,
        Action::ReadReports => event is Reports || event is ReadFailed,
        Action::Exit { .. } => false,
    }
}

/// The phase and the action that follow `event` in `phase`, where `pending`
/// is the action that was handed out last; `None` where the event is no
/// answer to that action, or the phase has no use for it.
pub open spec fn spec_step(settings: Settings, phase: Phase, pending: Action, event: Event) -> Option<
    (Phase, Action),
> {
    if answers(pending, event) {
        step_in(settings, phase, event)
    } else {
        None
    }
}

/// The phase and the action that follow `event` in `phase`, or `None` where
/// the phase has no use for the event.
pub open spec fn step_in(settings: Settings, phase: Phase, event: Event) -> Option<(Phase, Action)> {
    match phase {
        Phase::CreatingDevice => match event {
            Event::Succeeded => Some(after_device(settings)),
            Event::Failed => Some(fatal()),
            _ => None,
        },
        Phase::RestrictingPrivileges => match event {
            Event::Succeeded => Some(
                (Phase::Confining, Action::Confine { allow_setuid: settings.switch_user }),
            ),
            Event::Failed => Some(fatal()),
            _ => None,
        },
        Phase::Confining => match event {
            Event::Succeeded => Some(after_confinement(settings)),
            Event::Failed => Some(fatal()),
            _ => None,
        },
        Phase::SwitchingIdentity => match event {
            Event::Succeeded => Some(enter_search()),
            Event::Failed => Some(fatal()),
            _ => None,
        },
        Phase::Running(LifecycleState::Searching) => match event {
            Event::Discovered { found } => Some(
                if found {
                    (Phase::Running(LifecycleState::Connected), Action::ReadReports)
                } else {
                    (Phase::Running(LifecycleState::Searching), Action::AwaitHotplug)
                },
            ),
            Event::Hotplug(e) => Some(
                if announces_joycon(e@) {
                    (
                        Phase::Running(LifecycleState::Searching),
                        Action::Delay { millis: settings.grace_millis },
                    )
                } else {
                    (Phase::Running(LifecycleState::Searching), Action::AwaitHotplug)
                },
            ),
            Event::Elapsed => Some(enter_search()),
            _ => None,
        },
        Phase::Running(LifecycleState::Connected) => match event {
            Event::Reports(_) => Some(
                (Phase::Running(LifecycleState::Connected), Action::ReadReports),
            ),
            Event::ReadFailed { os_error } => Some(
                if os_error == Some(ENODEV) {
                    settle(disconnected(settings.background))
                } else {
                    fatal()
                },
            ),
            _ => None,
        },
        Phase::Running(_) => None,
    }
}

/// The clicks that `event` is worth in `phase`: those of the reports that a
/// connected device hands over, and none else.
pub open spec fn spec_clicks_of(mapping: KeyMapping, phase: Phase, event: Event) -> Seq<Click> {
    match (phase, event) {
        (Phase::Running(LifecycleState::Connected), Event::Reports(reports)) => mapping.spec_clicks(
            reports@,
        ),
        _ => Seq::empty(),
    }
}

/// The controller of the daemon.
#[derive(Debug)]
pub struct Controller {
    settings: Settings,
    mapping: KeyMapping,
    phase: Phase,
    pending: Action,
}

/// Whether `event` is an answer to `action`.
fn is_answer(action: Action, event: &Event) -> (yes: bool)
    ensures
        yes == answers(action, *event),
{
    match action {
        Action::CreateVirtualDevice
        | Action::SetNoNewPrivileges
        | Action::Confine { .. }
        | Action::SwitchIdentity => match event {
            Event::Succeeded => true,
            Event::Failed => true,
            _ => false,
        },
        Action::Discover => match event {
            Event::Discovered { .. } => true,
            _ => false,
        },
        Action::AwaitHotplug => match event {
            Event::Hotplug(_) => true,
            _ => false,
        },
        Action::Delay { .. } => match event {
            Event::Elapsed => true,
            _ => false,
        },
        Action::ReadReports => match event {
            Event::Reports(_) => true,
            Event::ReadFailed { .. } => true,
            _ => false,
        },
        Action::Exit { .. } => false,
    }
}

impl Controller {
    /// What the daemon was started with.
    pub closed spec fn settings(&self) -> Settings {
        self.settings
    }

    /// The mapping from buttons to clicks.
    pub closed spec fn mapping(&self) -> KeyMapping {
        self.mapping
    }

    /// Where the daemon stands.
    pub closed spec fn spec_phase(&self) -> Phase {
        self.phase
    }

    /// The action that was handed out last, which the next event answers.
    pub closed spec fn spec_pending(&self) -> Action {
        self.pending
    }

    /// A controller at the start of the daemon, and the first action: to
    /// create the virtual keyboard.
    pub fn start(settings: Settings, mapping: KeyMapping) -> (begun: (Controller, Action))
        ensures
            begun.0.settings() == settings,
            begun.0.mapping() == mapping,
            begun.0.spec_phase() == Phase::CreatingDevice,
            begun.0.spec_pending() == Action::CreateVirtualDevice,
            begun.1 == Action::CreateVirtualDevice,
    {
        (
            Controller {
                settings,
                mapping,
                phase: Phase::CreatingDevice,
                pending: Action::CreateVirtualDevice,
            },
            Action::CreateVirtualDevice,
        )
    }

    /// The action that was handed out last, which the next event answers.
    pub fn pending(&self) -> (action: Action)
        ensures
            action == self.spec_pending(),
    {
        self.pending
    }

    /// Where the daemon stands.
    pub fn phase(&self) -> (phase: Phase)
        ensures
            phase == self.spec_phase(),
    {
        self.phase
    }

    /// Where the daemon stands with its device, once its start is over.
    pub fn state(&self) -> (state: Option<LifecycleState>)
        ensures
            state == match self.spec_phase() {
                Phase::Running(s) => Some(s),
                _ => None,
            },
    {
        match self.phase {
            Phase::Running(s) => Some(s),
            _ => None,
        }
    }

    /// Takes in what happened and says what to do next. An event that is no
    /// answer to the action handed out last, or that the phase has no use
    /// for, changes nothing and is answered by `None`.
    pub fn step(&mut self, event: &Event) -> (step: Option<Step>)
        ensures
            final(self).settings() == old(self).settings(),
            final(self).mapping() == old(self).mapping(),
            match spec_step(
                old(self).settings(),
                old(self).spec_phase(),
                old(self).spec_pending(),
                *event,
            ) {
                Some((phase, action)) => {
                    &&& final(self).spec_phase() == phase
                    &&& final(self).spec_pending() == action
                    &&& step matches Some(s)
                    &&& s.action == action
                    &&& s.clicks@ == spec_clicks_of(old(self).mapping(), old(self).spec_phase(), *event)
                },
                None => {
                    &&& step is None
                    &&& final(self).spec_phase() == old(self).spec_phase()
                    &&& final(self).spec_pending() == old(self).spec_pending()
                },
            },
    {
        if !is_answer(self.pending, event) {
            return None;
        }
        let settings = self.settings;
        let fatal = (Phase::Running(LifecycleState::Terminated), Action::Exit { code: EXIT_FAILURE });
        let search = (Phase::Running(LifecycleState::Searching), Action::Discover);
        let after_confinement = if settings.switch_user {
            (Phase::SwitchingIdentity, Action::SwitchIdentity)
        } else {
            search
        };
        let mut clicks: Vec<Click> = Vec::new();
        let next: Option<(Phase, Action)> = match self.phase {
            Phase::CreatingDevice => match event {
                Event::Succeeded => Some(
                    if settings.sandbox {
                        (Phase::RestrictingPrivileges, Action::SetNoNewPrivileges)
                    } else {
                        after_confinement
                    },
                ),
                Event::Failed => Some(fatal),
                _ => None,
            },
            Phase::RestrictingPrivileges => match event {
                Event::Succeeded => Some(
                    (Phase::Confining, Action::Confine { allow_setuid: settings.switch_user }),
                ),
                Event::Failed => Some(fatal),
                _ => None,
            },
            Phase::Confining => match event {
                Event::Succeeded => Some(after_confinement),
                Event::Failed => Some(fatal),
                _ => None,
            },
            Phase::SwitchingIdentity => match event {
                Event::Succeeded => Some(search),
                Event::Failed => Some(fatal),
                _ => None,
            },
            Phase::Running(LifecycleState::Searching) => match event {
                Event::Discovered { found } => Some(
                    if *found {
                        (Phase::Running(LifecycleState::Connected), Action::ReadReports)
                    } else {
                        (Phase::Running(LifecycleState::Searching), Action::AwaitHotplug)
                    },
                ),
                Event::Hotplug(e) => Some(
                    if e.is_joycon_bind() {
                        (
                            Phase::Running(LifecycleState::Searching),
                            Action::Delay { millis: settings.grace_millis },
                        )
                    } else {
                        (Phase::Running(LifecycleState::Searching), Action::AwaitHotplug)
                    },
                ),
                Event::Elapsed => Some(search),
                _ => None,
            },
            Phase::Running(LifecycleState::Connected) => match event {
                Event::Reports(reports) => {
                    clicks = self.mapping.clicks(reports);
                    Some((Phase::Running(LifecycleState::Connected), Action::ReadReports))
                },
                Event::ReadFailed { os_error } => Some(
                    match os_error {
                        Some(code) => if *code == ENODEV {
                            if settings.background {
                                search
                            } else {
                                (
                                    Phase::Running(LifecycleState::Terminated),
                                    Action::Exit { code: EXIT_SUCCESS },
                                )
                            }
                        } else {
                            fatal
                        },
                        None => fatal,
                    },
                ),
                _ => None,
            },
            Phase::Running(_) => None,
        };
        match next {
            Some((phase, action)) => {
                self.phase = phase;
                self.pending = action;
                Some(Step { clicks, action })
            },
            None => None,
        }
    }
}

/// What to tell the user where the daemon still runs as the administrator
/// once its start is over: a warning, which changes nothing.
pub fn root_warning(uid: u32) -> (warning: Option<&'static str>)
    ensures
        warning is Some <==> uid == 0,
        warning matches Some(w) ==> w@
            == "Running as root, which prevent getting keypress in some configuration"@,
{
    if uid == 0 {
        Some("Running as root, which prevent getting keypress in some configuration")
    } else {
        None
    }
}


/// A run of the daemon: the phase it has reached when `events` have been
/// taken in one after the other, and the actions it has handed out on the
/// way, the first of all included.
pub open spec fn run(settings: Settings, events: Seq<Event>) -> (Phase, Seq<Action>)
    decreases events.len(),
{
    if events.len() == 0 {
        (Phase::CreatingDevice, seq![Action::CreateVirtualDevice])
    } else {
        let (phase, actions) = run(settings, events.drop_last());
        match spec_step(settings, phase, actions.last(), events.last()) {
            Some((next, action)) => (next, actions.push(action)),
            None => (phase, actions),
        }
    }
}

/// Whether an action confines the process.
pub open spec fn is_confine(action: Action) -> bool {
    action is Confine
}

/// What holds of the actions of every run, together with what the phase
/// still leaves open.
spec fn orderly(phase: Phase, actions: Seq<Action>) -> bool {
    &&& actions.len() >= 1
    &&& actions[0] == Action::CreateVirtualDevice
    &&& forall|i: int| 0 < i < actions.len() ==> actions[i] != Action::CreateVirtualDevice
    &&& forall|i: int, j: int|
        0 <= i < j < actions.len() && is_confine(actions[i]) ==> !is_confine(actions[j])
            && actions[j] != Action::SetNoNewPrivileges
    &&& forall|i: int, j: int|
        0 <= i < j < actions.len() && actions[i] == Action::SwitchIdentity ==> actions[j]
            != Action::SwitchIdentity && !is_confine(actions[j]) && actions[j]
            != Action::SetNoNewPrivileges
    &&& (phase == Phase::CreatingDevice || phase == Phase::RestrictingPrivileges) ==> forall|i: int|
        0 <= i < actions.len() ==> !is_confine(actions[i]) && actions[i] != Action::SwitchIdentity
    &&& phase == Phase::CreatingDevice ==> forall|i: int|
        0 <= i < actions.len() ==> actions[i] != Action::SetNoNewPrivileges
    &&& phase == Phase::Confining ==> forall|i: int|
        0 <= i < actions.len() ==> actions[i] != Action::SwitchIdentity
    &&& phase != Phase::Running(LifecycleState::DisconnectedForeground)
    &&& phase != Phase::Running(LifecycleState::DisconnectedBackground)
    &&& (actions.last() == Action::AwaitHotplug || actions.last() is Delay) ==> phase
        == Phase::Running(LifecycleState::Searching)
    &&& forall|i: int|
        0 <= i < actions.len() - 1 && (#[trigger] actions[i]) == Action::AwaitHotplug ==> actions[i
            + 1] == Action::AwaitHotplug || actions[i + 1] is Delay
    &&& forall|i: int|
        0 <= i < actions.len() - 1 && (#[trigger] actions[i]) is Delay ==> actions[i + 1]
            == Action::Discover
}

proof fn lemma_runs_are_orderly(settings: Settings, events: Seq<Event>)
    ensures
        orderly(run(settings, events).0, run(settings, events).1),
    decreases events.len(),
{
    if events.len() > 0 {
        lemma_runs_are_orderly(settings, events.drop_last());
        let (phase, actions) = run(settings, events.drop_last());
        match spec_step(settings, phase, actions.last(), events.last()) {
            Some((next, action)) => {
                let longer = actions.push(action);
                assert(forall|i: int| 0 <= i < actions.len() ==> longer[i] == actions[i]);
                assert(longer[actions.len() as int] == action);
            },
            None => {},
        }
    }
}

/// The switch of the user is asked for at most once in the life of the
/// daemon.
pub proof fn lemma_identity_switched_at_most_once(settings: Settings, events: Seq<Event>)
    ensures
        forall|i: int, j: int|
            #![trigger run(settings, events).1[i], run(settings, events).1[j]]
            0 <= i < run(settings, events).1.len() && 0 <= j < run(settings, events).1.len() && run(
                settings,
                events,
            ).1[i] == Action::SwitchIdentity && run(settings, events).1[j] == Action::SwitchIdentity
                ==> i == j,
{
    lemma_runs_are_orderly(settings, events);
}

/// The virtual keyboard is created first of all and only then; whatever
/// confines the process comes after that, and the switch of the user comes
/// after whatever confines the process.
pub proof fn lemma_start_is_ordered(settings: Settings, events: Seq<Event>)
    ensures
        run(settings, events).1.len() >= 1,
        run(settings, events).1[0] == Action::CreateVirtualDevice,
        forall|i: int|
            0 < i < run(settings, events).1.len() ==> (#[trigger] run(settings, events).1[i])
                != Action::CreateVirtualDevice,
        forall|i: int, j: int|
            #![trigger run(settings, events).1[i], run(settings, events).1[j]]
            0 <= i < run(settings, events).1.len() && 0 <= j < run(settings, events).1.len() && (
            is_confine(run(settings, events).1[i]) || run(settings, events).1[i]
                == Action::SetNoNewPrivileges) && run(settings, events).1[j] == Action::SwitchIdentity
                ==> i < j,
{
    lemma_runs_are_orderly(settings, events);
}

/// The process is confined at most once, and barred from new privileges
/// before that.
pub proof fn lemma_confined_at_most_once(settings: Settings, events: Seq<Event>)
    ensures
        forall|i: int, j: int|
            #![trigger run(settings, events).1[i], run(settings, events).1[j]]
            0 <= i < run(settings, events).1.len() && 0 <= j < run(settings, events).1.len()
                && is_confine(run(settings, events).1[i]) && is_confine(run(settings, events).1[j])
                ==> i == j,
        forall|i: int, j: int|
            #![trigger run(settings, events).1[i], run(settings, events).1[j]]
            0 <= i < run(settings, events).1.len() && 0 <= j < run(settings, events).1.len()
                && is_confine(run(settings, events).1[i]) && run(settings, events).1[j]
                == Action::SetNoNewPrivileges ==> j < i,
{
    lemma_runs_are_orderly(settings, events);
}

/// The daemon never stays in a state that the loss of its device only leads
/// through.
pub proof fn lemma_disconnect_is_passed_through(settings: Settings, events: Seq<Event>)
    ensures
        run(settings, events).0 != Phase::Running(LifecycleState::DisconnectedForeground),
        run(settings, events).0 != Phase::Running(LifecycleState::DisconnectedBackground),
{
    lemma_runs_are_orderly(settings, events);
}

/// Once it has ended the daemon stays ended and hands out nothing more.
pub proof fn lemma_terminated_is_final(settings: Settings, pending: Action, event: Event)
    ensures
        spec_step(settings, Phase::Running(LifecycleState::Terminated), pending, event) is None,
{
}

/// After a wait for the kernel the daemon waits on or lets the time of grace
/// pass, and only after that time does it search again: no event can bring
/// it from the announcement of a device straight to the search for it.
pub proof fn lemma_search_waits_after_announcement(settings: Settings, events: Seq<Event>)
    ensures
        forall|i: int|
            0 <= i < run(settings, events).1.len() - 1 && (#[trigger] run(settings, events).1[i])
                == Action::AwaitHotplug ==> run(settings, events).1[i + 1] == Action::AwaitHotplug
                || run(settings, events).1[i + 1] is Delay,
        forall|i: int|
            0 <= i < run(settings, events).1.len() - 1 && (#[trigger] run(settings, events).1[i])
                is Delay ==> run(settings, events).1[i + 1] == Action::Discover,
{
    lemma_runs_are_orderly(settings, events);
}

} // verus!
