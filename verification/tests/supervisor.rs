use workspace_labels::supervisor::{step, Action, Event, Phase, WindowChange, WorkspaceChange};

const PHASES: [Phase; 4] = [Phase::Starting, Phase::Running, Phase::Draining, Phase::Terminated];

const EVENTS: [Event; 11] = [
    Event::Ready,
    Event::Window(WindowChange::New),
    Event::Window(WindowChange::Close),
    Event::Window(WindowChange::Move),
    Event::Window(WindowChange::Other),
    Event::Workspace(WorkspaceChange::Init),
    Event::Workspace(WorkspaceChange::Move),
    Event::Workspace(WorkspaceChange::Other),
    Event::Ignored,
    Event::Signal,
    Event::Drained,
];

#[test]
fn first_pass_runs_when_the_connection_stands() {
    assert_eq!(step(Phase::Starting, Event::Ready), (Phase::Running, Action::RenameAll));
}

#[test]
fn running_renames_on_the_notifications_that_matter() {
    for event in [
        Event::Window(WindowChange::New),
        Event::Window(WindowChange::Close),
        Event::Window(WindowChange::Move),
        Event::Workspace(WorkspaceChange::Move),
    ] {
        assert_eq!(step(Phase::Running, event), (Phase::Running, Action::RenameAll));
    }
    assert_eq!(
        step(Phase::Running, Event::Workspace(WorkspaceChange::Init)),
        (Phase::Running, Action::CleanFocused)
    );
    for event in [
        Event::Window(WindowChange::Other),
        Event::Workspace(WorkspaceChange::Other),
        Event::Ignored,
        Event::Ready,
        Event::Drained,
    ] {
        assert_eq!(step(Phase::Running, event), (Phase::Running, Action::Nothing));
    }
}

#[test]
fn signal_starts_the_last_pass_and_the_process_ends_with_zero() {
    assert_eq!(step(Phase::Starting, Event::Signal), (Phase::Draining, Action::Drain));
    assert_eq!(step(Phase::Running, Event::Signal), (Phase::Draining, Action::Drain));
    assert_eq!(step(Phase::Draining, Event::Drained), (Phase::Terminated, Action::Exit(0)));
}

#[test]
fn nothing_is_begun_once_the_last_pass_has_started() {
    for event in EVENTS {
        if event != Event::Drained {
            assert_eq!(step(Phase::Draining, event), (Phase::Draining, Action::Nothing));
        }
        assert_eq!(step(Phase::Terminated, event), (Phase::Terminated, Action::Nothing));
    }
}

#[test]
fn any_run_drains_and_exits_at_most_once() {
    // every run of four events from every phase
    for start in PHASES {
        for a in EVENTS {
            for b in EVENTS {
                for c in EVENTS {
                    for d in EVENTS {
                        let mut phase = start;
                        let mut drains = 0;
                        let mut exits = 0;
                        for event in [a, b, c, d] {
                            let (next, action) = step(phase, event);
                            phase = next;
                            match action {
                                Action::Drain => drains += 1,
                                Action::Exit(code) => {
                                    assert_eq!(code, 0);
                                    exits += 1;
                                }
                                _ => {}
                            }
                        }
                        assert!(drains <= 1 && exits <= 1);
                    }
                }
            }
        }
    }
}
