use judo::app::action::Action;
use judo::app::command::Command;
use judo::app::features::vcs::handler::{diff_result, snapshot_result, start_message};
use judo::app::reducer::update;
use judo::app::state::{AppMode, AppState};
use judo::domain::models::CommitId;

#[test]
fn test_diff_outcome_carries_the_error() {
    let id = CommitId("test-commit".to_string());
    match diff_result(id.clone(), Err("VCS Error".to_string())) {
        Action::DiffLoaded(got, diff) => {
            assert!(got == id);
            assert!(diff.contains("Error: VCS Error"));
        }
        other => panic!("Expected Action::DiffLoaded, got {other:?}"),
    }
}

#[test]
fn test_diff_outcome_carries_the_diff() {
    let id = CommitId("test-commit".to_string());
    match diff_result(id, Ok("Diff Content".to_string())) {
        Action::DiffLoaded(_, diff) => assert_eq!(diff, "Diff Content"),
        other => panic!("Expected Action::DiffLoaded, got {other:?}"),
    }
}

#[test]
fn test_full_command_error_to_state() {
    let mut state = AppState::default();
    let start = start_message(&Command::Snapshot).expect("a snapshot announces itself");
    update(&mut state, Action::OperationStarted(start));
    assert_eq!(state.mode, AppMode::Loading);
    assert!(state.active_tasks.iter().any(|t| t.contains("Snapshotting")));

    update(&mut state, snapshot_result(Err("Snapshot failed".to_string())));
    assert_eq!(state.mode, AppMode::NoRepo);
    assert!(state.last_error.is_some());
    assert!(state.last_error.unwrap().message.contains("Error: Snapshot failed"));
}
