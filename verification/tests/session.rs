use buzzcurse::session::{advance, fatal, Action, Failure, Phase, SessionEvent};

#[test]
fn enter_leads_from_discovery_to_control_to_the_end() {
    assert_eq!(advance(Phase::Discovery, SessionEvent::Enter), (Phase::Control, Action::BeginControl));
    assert_eq!(advance(Phase::Control, SessionEvent::Enter), (Phase::Finished, Action::Shutdown));
    assert_eq!(advance(Phase::Finished, SessionEvent::Enter), (Phase::Finished, Action::Proceed));
}

#[test]
fn only_transport_failures_are_survived() {
    assert!(fatal(Failure::Discovery));
    assert!(fatal(Failure::InputCapture));
    assert!(!fatal(Failure::Transport));
}

#[test]
fn fatal_failures_abort_the_session() {
    for phase in [Phase::Discovery, Phase::Control] {
        for failure in [Failure::Discovery, Failure::InputCapture] {
            assert_eq!(
                advance(phase, SessionEvent::Failed(failure)),
                (Phase::Finished, Action::Abort)
            );
        }
    }
}

#[test]
fn transport_failure_changes_nothing() {
    for phase in [Phase::Discovery, Phase::Control, Phase::Finished] {
        assert_eq!(
            advance(phase, SessionEvent::Failed(Failure::Transport)),
            (phase, Action::Proceed)
        );
    }
}

#[test]
fn finished_session_stays_finished() {
    for failure in [Failure::Discovery, Failure::Transport, Failure::InputCapture] {
        assert_eq!(
            advance(Phase::Finished, SessionEvent::Failed(failure)),
            (Phase::Finished, Action::Proceed)
        );
    }
}
