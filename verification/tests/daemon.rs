use open_interpreter::daemon::{
    after_graceful_stop, is_confirmation_response, kill_daemon, stop_question, ForcedStop, KillAction, KillEvent,
    KillReport,
};

#[test]
fn confirm_daemon_stop_accepts_yes_variants() {
    assert!(is_confirmation_response("y"));
    assert!(is_confirmation_response("Y"));
    assert!(is_confirmation_response("yes"));
    assert!(is_confirmation_response("Yes"));
}

#[test]
fn confirm_daemon_stop_rejects_default_and_other_values() {
    assert!(!is_confirmation_response(""));
    assert!(!is_confirmation_response("n"));
    assert!(!is_confirmation_response("no"));
    assert!(!is_confirmation_response("anything else"));
}

#[test]
fn white_space_around_an_answer_does_not_matter() {
    assert!(is_confirmation_response(" yEs\r\n"));
    assert!(is_confirmation_response("\u{a0}Y\u{2003}"));
    assert!(is_confirmation_response(" \t\u{3000}YES \r\n"));
    assert!(!is_confirmation_response(" \t NO \n"));
    assert!(!is_confirmation_response("y e s"));
    assert!(!is_confirmation_response("yes!"));
}

#[test]
fn a_daemon_that_does_not_run_is_not_stopped() {
    assert_eq!(
        kill_daemon(true, &KillEvent::Given),
        KillAction::QueryStatus
    );
    for force in [false, true] {
        let action = kill_daemon(force, &KillEvent::Status { running: false });
        assert_eq!(action, KillAction::Report(KillReport::NotRunning));
    }
    assert_eq!(
        KillReport::NotRunning.text(),
        "Open Interpreter daemon is not running."
    );
}

#[test]
fn force_asks_nobody() {
    assert_eq!(
        kill_daemon(true, &KillEvent::Status { running: true }),
        KillAction::ForceStop
    );
}

#[test]
fn only_force_goes_beyond_a_graceful_stop() {
    let yes = KillEvent::Response {
        text: "yes".to_string(),
    };
    let running = KillEvent::Status { running: true };
    assert_eq!(kill_daemon(false, &yes), KillAction::Stop);
    assert_eq!(kill_daemon(false, &running), KillAction::CheckTerminal);
    assert_eq!(kill_daemon(true, &running), KillAction::ForceStop);
    let stopped = KillEvent::Stopped { pid: Some(7) };
    assert_eq!(
        kill_daemon(true, &stopped),
        KillAction::Report(KillReport::Stopped { pid: 7 })
    );
}

#[test]
fn without_force_the_person_at_the_terminal_decides() {
    assert_eq!(
        kill_daemon(false, &KillEvent::Status { running: true }),
        KillAction::CheckTerminal
    );
    assert_eq!(
        kill_daemon(false, &KillEvent::Terminal { interactive: false }),
        KillAction::Refuse
    );
    assert_eq!(
        kill_daemon(false, &KillEvent::Terminal { interactive: true }),
        KillAction::Ask
    );
    assert!(stop_question().ends_with("Continue? [y/N] "));
    let yes = KillEvent::Response {
        text: "y\n".to_string(),
    };
    assert_eq!(kill_daemon(false, &yes), KillAction::Stop);
    let no = KillEvent::Response {
        text: "\n".to_string(),
    };
    assert_eq!(
        kill_daemon(false, &no),
        KillAction::Report(KillReport::Aborted)
    );
    assert_eq!(KillReport::Aborted.text(), "Aborted.");
}

#[test]
fn the_outcome_is_reported() {
    assert_eq!(
        kill_daemon(false, &KillEvent::Stopped { pid: None }),
        KillAction::Report(KillReport::NotRunning)
    );
    let action = kill_daemon(false, &KillEvent::Stopped { pid: Some(4021) });
    assert_eq!(action, KillAction::Report(KillReport::Stopped { pid: 4021 }));
    assert_eq!(
        KillReport::Stopped { pid: 4021 }.text(),
        "Stopped Open Interpreter daemon (pid 4021)."
    );
}

#[test]
fn force_ends_a_daemon_that_does_not_exit() {
    for graceful in [Ok(Some(7)), Ok(None), Err(())] {
        assert_eq!(
            after_graceful_stop(graceful, Some(8), Some(7)),
            ForcedStop::End { pid: 8 }
        );
    }
    assert_eq!(
        after_graceful_stop(Err(()), None, Some(7)),
        ForcedStop::End { pid: 7 }
    );
    assert_eq!(
        after_graceful_stop(Err(()), None, None),
        ForcedStop::Failed
    );
}

#[test]
fn a_daemon_that_stopped_is_not_ended() {
    assert_eq!(
        after_graceful_stop(Ok(Some(7)), None, Some(7)),
        ForcedStop::Stopped { pid: Some(7) }
    );
    assert_eq!(
        after_graceful_stop(Ok(None), None, Some(7)),
        ForcedStop::Stopped { pid: None }
    );
}
