//! The life of the program as a state machine: which notification leads to
//! which work, and how a termination signal ends it.

use vstd::prelude::*;

verus! {

/// Where the program stands.
#[derive(Debug, Clone, Copy, PartialEq, Eq, Structural)]
pub enum Phase {
    /// Connected, before the first pass.
    Starting,
    /// Waiting for notifications, and renaming on those that matter.
    Running,
    /// A termination signal has come; the last pass is under way.
    Draining,
    /// The program has ended.
    Terminated,
}

/// What happened to a window.
#[derive(Debug, Clone, Copy, PartialEq, Eq, Structural)]
pub enum WindowChange {
    New,
    Close,
    Move,
    Other,
}

/// What happened to a workspace.
#[derive(Debug, Clone, Copy, PartialEq, Eq, Structural)]
pub enum WorkspaceChange {
    Init,
    Move,
    Other,
}

/// What the program is told.
#[derive(Debug, Clone, Copy, PartialEq, Eq, Structural)]
pub enum Event {
    /// The connection stands.
    Ready,
    /// A notification about a window.
    Window(WindowChange),
    /// A notification about a workspace.
    Workspace(WorkspaceChange),
    /// A notification of another class, or one that could not be read.
    Ignored,
    /// The operating system asks the program to end.
    Signal,
    /// The last pass is done.
    Drained,
}

/// What the program does in answer.
#[derive(Debug, Clone, Copy, PartialEq, Eq, Structural)]
pub enum Action {
    Nothing,
    /// One pass over all workspaces.
    RenameAll,
    /// The clean slate for the workspace that holds the focus.
    CleanFocused,
    /// The last pass.
    Drain,
    /// End the process with this exit code.
    Exit(i32),
}

/// Whether a notification asks for a pass over all workspaces: a window was
/// opened, closed or moved, or a workspace was moved.
pub open spec fn asks_for_pass(event: Event) -> bool {
    match event {
        Event::Window(WindowChange::New) => true,
        Event::Window(WindowChange::Close) => true,
        Event::Window(WindowChange::Move) => true,
        Event::Workspace(WorkspaceChange::Move) => true,
        _ => false,
    }
}

/// The phase and the action that follow `event` in `phase`.
///
/// The first pass runs when the connection stands. While running, the
/// notifications that matter lead to a pass, a new workspace to a clean
/// slate, and everything else to nothing. A termination signal starts the
/// last pass, once; when that is done the process ends with exit code 0.
pub open spec fn next(phase: Phase, event: Event) -> (Phase, Action) {
    match phase {
        Phase::Starting => match event {
            Event::Ready => (Phase::Running, Action::RenameAll),
            Event::Signal => (Phase::Draining, Action::Drain),
            _ => (Phase::Starting, Action::Nothing),
        },
        Phase::Running => if event == Event::Signal {
            (Phase::Draining, Action::Drain)
        } else if asks_for_pass(event) {
            (Phase::Running, Action::RenameAll)
        } else if event == Event::Workspace(WorkspaceChange::Init) {
            (Phase::Running, Action::CleanFocused)
        } else {
            (Phase::Running, Action::Nothing)
        },
        Phase::Draining => match event {
            Event::Drained => (Phase::Terminated, Action::Exit(0)),
            _ => (Phase::Draining, Action::Nothing),
        },
        Phase::Terminated => (Phase::Terminated, Action::Nothing),
    }
}

/// Decides what follows `event` in `phase`.
pub fn step(phase: Phase, event: Event) -> (r: (Phase, Action))
    ensures
        r == next(phase, event),
{
    match phase {
        Phase::Starting => match event {
            Event::Ready => (Phase::Running, Action::RenameAll),
            Event::Signal => (Phase::Draining, Action::Drain),
            _ => (Phase::Starting, Action::Nothing),
        },
        Phase::Running => match event {
            Event::Signal => (Phase::Draining, Action::Drain),
            Event::Window(WindowChange::New) => (Phase::Running, Action::RenameAll),
            Event::Window(WindowChange::Close) => (Phase::Running, Action::RenameAll),
            Event::Window(WindowChange::Move) => (Phase::Running, Action::RenameAll),
            Event::Workspace(WorkspaceChange::Move) => (Phase::Running, Action::RenameAll),
            Event::Workspace(WorkspaceChange::Init) => (Phase::Running, Action::CleanFocused),
            _ => (Phase::Running, Action::Nothing),
        },
        Phase::Draining => match event {
            Event::Drained => (Phase::Terminated, Action::Exit(0)),
            _ => (Phase::Draining, Action::Nothing),
        },
        Phase::Terminated => (Phase::Terminated, Action::Nothing),
    }
}

/// How far a phase is on the way from start to end.
pub open spec fn rank(phase: Phase) -> nat {
    match phase {
        Phase::Starting => 0,
        Phase::Running => 1,
        Phase::Draining => 2,
        Phase::Terminated => 3,
    }
}

/// The phase after a run of events.
pub open spec fn phase_after(phase: Phase, events: Seq<Event>) -> Phase
    decreases events.len(),
{
    if events.len() == 0 {
        phase
    } else {
        next(phase_after(phase, events.drop_last()), events.last()).0
    }
}

/// The actions of a run of events, in their order.
pub open spec fn actions_of(phase: Phase, events: Seq<Event>) -> Seq<Action>
    decreases events.len(),
{
    if events.len() == 0 {
        Seq::empty()
    } else {
        actions_of(phase, events.drop_last()).push(
            next(phase_after(phase, events.drop_last()), events.last()).1,
        )
    }
}

/// How often `wanted` stands among `actions`.
pub open spec fn count_of(actions: Seq<Action>, wanted: Action) -> nat
    decreases actions.len(),
{
    if actions.len() == 0 {
        0
    } else {
        count_of(actions.drop_last(), wanted) + if actions.last() == wanted {
            1nat
        } else {
            0nat
        }
    }
}

/// How many of `actions` end the process, with whatever exit code.
pub open spec fn exits_in(actions: Seq<Action>) -> nat
    decreases actions.len(),
{
    if actions.len() == 0 {
        0
    } else {
        exits_in(actions.drop_last()) + if actions.last() is Exit {
            1nat
        } else {
            0nat
        }
    }
}

/// One step never goes back: the phase stays or moves on. The process ends
/// only out of the last pass, and only with exit code 0. A termination signal
/// starts the last pass from any phase before it, and does nothing after.
pub proof fn lemma_step(phase: Phase, event: Event)
    ensures
        rank(phase) <= rank(next(phase, event).0),
        next(phase, event).1 is Exit ==> phase == Phase::Draining && event == Event::Drained
            && next(phase, event).1 == Action::Exit(0) && next(phase, event).0
            == Phase::Terminated,
        next(phase, event).1 == Action::Drain <==> event == Event::Signal && rank(phase) < 2,
        next(phase, event).1 == Action::Drain ==> next(phase, event).0 == Phase::Draining,
        rank(phase) >= 2 ==> next(phase, event).1 != Action::RenameAll && next(phase, event).1
            != Action::CleanFocused,
{
}

/// In any run of events, whatever their order and however many termination
/// signals are among them, the phase never goes back, the last pass starts at
/// most once and the process ends at most once, and always with exit code 0.
/// Once the last pass has started no other work is begun.
pub proof fn lemma_run(phase: Phase, events: Seq<Event>)
    ensures
        rank(phase) <= rank(phase_after(phase, events)),
        actions_of(phase, events).len() == events.len(),
        count_of(actions_of(phase, events), Action::Drain) <= 1,
        count_of(actions_of(phase, events), Action::Drain) == 1 ==> rank(
            phase_after(phase, events),
        ) >= 2,
        exits_in(actions_of(phase, events)) <= 1,
        exits_in(actions_of(phase, events)) == count_of(
            actions_of(phase, events),
            Action::Exit(0),
        ),
        exits_in(actions_of(phase, events)) == 1 ==> phase_after(phase, events)
            == Phase::Terminated,
    decreases events.len(),
{
    if events.len() > 0 {
        lemma_run(phase, events.drop_last());
        lemma_step(phase_after(phase, events.drop_last()), events.last());
        let actions = actions_of(phase, events);
        assert(actions.drop_last() =~= actions_of(phase, events.drop_last()));
    }
}

} // verus!
