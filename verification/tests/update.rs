use vista_shell::update::{update_question, UpdateAction, UpdateEvent, UpdateFlow};

#[test]
fn the_question_names_the_version() {
    assert_eq!(
        update_question("0.3.0"),
        "Vista Platform 0.3.0 is available. Install and restart now?"
    );
}

#[test]
fn an_accepted_update_restarts() {
    let mut flow = UpdateFlow::Checking;
    let action = flow.advance(UpdateEvent::Found("0.3.0".to_string()));
    assert!(matches!(action, UpdateAction::Ask(q) if q.contains("0.3.0")));
    assert_eq!(flow, UpdateFlow::Asking);
    assert!(matches!(flow.advance(UpdateEvent::Answered(true)), UpdateAction::Install));
    assert_eq!(flow, UpdateFlow::Installing);
    assert!(matches!(flow.advance(UpdateEvent::Installed(true)), UpdateAction::Restart));
    assert_eq!(flow, UpdateFlow::Finished);
}

#[test]
fn a_failed_check_is_silent() {
    let mut flow = UpdateFlow::Checking;
    assert!(matches!(flow.advance(UpdateEvent::NothingFound), UpdateAction::Wait));
    assert_eq!(flow, UpdateFlow::Finished);
    let late = flow.advance(UpdateEvent::Found("0.3.0".to_string()));
    assert!(matches!(late, UpdateAction::Wait));
    assert_eq!(flow, UpdateFlow::Finished);
}

#[test]
fn later_means_not_now() {
    let mut flow = UpdateFlow::Asking;
    assert!(matches!(flow.advance(UpdateEvent::Answered(false)), UpdateAction::Wait));
    assert_eq!(flow, UpdateFlow::Finished);
}

#[test]
fn a_failed_installation_does_not_restart() {
    let mut flow = UpdateFlow::Installing;
    assert!(matches!(flow.advance(UpdateEvent::Installed(false)), UpdateAction::Wait));
    assert_eq!(flow, UpdateFlow::Finished);
}

#[test]
fn a_report_out_of_turn_changes_nothing() {
    let mut flow = UpdateFlow::Checking;
    assert!(matches!(flow.advance(UpdateEvent::Installed(true)), UpdateAction::Wait));
    assert_eq!(flow, UpdateFlow::Checking);
}
