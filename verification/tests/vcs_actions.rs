use judo::app::action::{Action, UpdateResult};
use judo::app::command::Command;
use judo::app::features::vcs::actions::update;
use judo::app::keymap::KeyConfig;
use judo::app::state::{AppMode, AppState};
use judo::domain::models::{CommitId, FileChange, FileStatus, GraphRow, RepoStatus};

fn repo_with(rows: Vec<GraphRow>) -> RepoStatus {
    RepoStatus {
        repo_name: "test".to_string(),
        operation_id: "op".to_string(),
        workspace_id: "ws".to_string(),
        working_copy_id: CommitId("abc".to_string()),
        graph: rows,
    }
}

#[test]
fn test_commit_intent_blocked_by_conflicts() {
    let mut state = AppState::new(KeyConfig::default());

    // Setup a repo with a conflicted working copy
    let mut repo = RepoStatus {
        repo_name: "test".to_string(),
        operation_id: "op".to_string(),
        workspace_id: "ws".to_string(),
        working_copy_id: CommitId("abc".to_string()),
        graph: vec![],
    };
    let mut row = GraphRow::default();
    row.is_working_copy = true;
    row.changed_files.push(FileChange {
        path: "conflict.txt".to_string(),
        status: FileStatus::Conflicted,
    });
    repo.graph.push(row);
    state.repo = Some(repo);

    let result = update(&mut state, &Action::CommitWorkingCopyIntent, 0);

    assert!(matches!(result, UpdateResult::Handled(None)));
    assert_ne!(state.mode, AppMode::CommitInput);
    assert!(state.last_error.is_some());
    assert!(state
        .last_error
        .as_ref()
        .unwrap()
        .message
        .contains("conflicts"));
}

#[test]
fn commit_intent_opens_input_with_description() {
    let mut state = AppState::new(KeyConfig::default());
    let mut row = GraphRow::default();
    row.is_working_copy = true;
    row.description = "first line\nsecond".to_string();
    state.repo = Some(repo_with(vec![row]));
    let result = update(&mut state, &Action::CommitWorkingCopyIntent, 0);
    assert!(matches!(result, UpdateResult::Handled(None)));
    assert_eq!(state.mode, AppMode::CommitInput);
    let lines = state.input.as_ref().unwrap().text_area.lines();
    assert_eq!(lines, vec!["first line".to_string(), "second".to_string()]);
}

#[test]
fn push_with_several_bookmarks_opens_a_menu() {
    let mut state = AppState::new(KeyConfig::default());
    let mut row = GraphRow::default();
    row.commit_id = CommitId("c1".to_string());
    row.bookmarks = vec!["main".to_string(), "dev".to_string()];
    state.repo = Some(repo_with(vec![row]));
    state.log.list_state.select(Some(0));
    let result = update(&mut state, &Action::PushIntent, 0);
    assert!(matches!(result, UpdateResult::Handled(None)));
    assert_eq!(state.mode, AppMode::ContextMenu);
    let menu = state.context_menu.as_ref().unwrap();
    let labels: Vec<&str> = menu.actions.iter().map(|(l, _)| l.as_str()).collect();
    assert_eq!(labels, vec!["Push bookmark: main", "Push bookmark: dev", "Push All"]);
}

#[test]
fn push_with_one_bookmark_pushes_it() {
    let mut state = AppState::new(KeyConfig::default());
    let mut row = GraphRow::default();
    row.bookmarks = vec!["main".to_string()];
    state.repo = Some(repo_with(vec![row]));
    state.log.list_state.select(Some(0));
    let result = update(&mut state, &Action::PushIntent, 0);
    match result {
        UpdateResult::Handled(Some(Command::Push(Some(b)))) => assert_eq!(b, "main"),
        other => panic!("unexpected {:?}", other),
    }
}

#[test]
fn abandon_without_selection_asks_nothing() {
    let mut state = AppState::new(KeyConfig::default());
    let result = update(&mut state, &Action::AbandonRevision(None), 0);
    assert!(matches!(result, UpdateResult::Handled(None)));
    let result = update(&mut state, &Action::Fetch, 0);
    assert!(matches!(result, UpdateResult::Handled(Some(Command::Fetch))));
    let result = update(&mut state, &Action::Render, 0);
    assert!(matches!(result, UpdateResult::NotHandled));
}

#[test]
fn delete_bookmark_intent_deletes_the_first_bookmark() {
    let mut state = AppState::new(KeyConfig::default());
    let mut row = GraphRow::default();
    row.bookmarks = vec!["main".to_string(), "dev".to_string()];
    state.repo = Some(repo_with(vec![row]));
    state.log.list_state.select(Some(0));
    match update(&mut state, &Action::DeleteBookmarkIntent, 0) {
        UpdateResult::Handled(Some(Command::DeleteBookmark(b))) => assert_eq!(b, "main"),
        other => panic!("unexpected {:?}", other),
    }
}

#[test]
fn squash_key_squashes_the_selected_revision() {
    let mut state = AppState::new(KeyConfig::default());
    let mut row = GraphRow::default();
    row.commit_id = CommitId("c9".to_string());
    state.repo = Some(repo_with(vec![row]));
    state.log.list_state.select(Some(0));
    match update(&mut state, &Action::EnterSquashMode, 0) {
        UpdateResult::Handled(Some(Command::Squash(ids))) => {
            assert!(ids.len() == 1 && ids[0].0 == "c9")
        }
        other => panic!("unexpected {:?}", other),
    }
}
