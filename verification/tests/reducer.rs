use judo::app::action::Action;
use judo::app::command::Command;
use judo::app::keymap::KeyConfig;
use judo::app::reducer::{update, update_at};
use judo::app::state::{AppMode, AppState};
use judo::domain::models::{CommitId, GraphRow, RepoStatus};

fn row(id: &str, parents: &[&str]) -> GraphRow {
    GraphRow {
        commit_id: CommitId(id.to_string()),
        parents: parents.iter().map(|p| CommitId(p.to_string())).collect(),
        ..Default::default()
    }
}

fn repo(rows: Vec<GraphRow>) -> Box<RepoStatus> {
    Box::new(RepoStatus {
        repo_name: "r".to_string(),
        operation_id: "op".to_string(),
        workspace_id: "ws".to_string(),
        working_copy_id: CommitId("c2".to_string()),
        graph: rows,
    })
}

fn loaded_state() -> AppState {
    let mut state = AppState::new(KeyConfig::default());
    let mut wc = row("c2", &["c1"]);
    wc.is_working_copy = true;
    wc.bookmarks = vec!["main".to_string(), "dev".to_string()];
    let cmd = update_at(
        &mut state,
        Action::RepoLoaded(repo(vec![wc, row("c1", &["c0"]), row("c0", &[])])),
        1_000,
    );
    assert!(matches!(cmd, Some(Command::LoadDiff(ref id)) if id.0 == "c2"));
    state
}

#[test]
fn quit_sets_the_flag() {
    let mut state = AppState::new(KeyConfig::default());
    assert!(update(&mut state, Action::Quit).is_none());
    assert!(state.should_quit);
}

#[test]
fn repo_loaded_selects_first_row_and_fills_header() {
    let state = loaded_state();
    assert_eq!(state.log.list_state.selected(), Some(0));
    assert!(state.log.is_loading_diff);
    assert_eq!(state.workspace_id, "ws");
    assert_eq!(state.header_state.repo_text, " ws ");
    assert_eq!(state.header_state.wc_text, " c2 ");
    assert_eq!(state.header_state.branch_text, "main, dev");
    assert_eq!(state.header_state.stats_text, " 3 revs | 0 selected ");
}

#[test]
fn selection_wraps_around() {
    let mut state = loaded_state();
    update_at(&mut state, Action::SelectPrev, 0);
    assert_eq!(state.log.list_state.selected(), Some(2));
    update_at(&mut state, Action::SelectNext, 0);
    assert_eq!(state.log.list_state.selected(), Some(0));
}

#[test]
fn loaded_diff_is_shown_and_reused() {
    let mut state = loaded_state();
    let cmd = update_at(&mut state, Action::SelectIndex(1), 0);
    assert!(matches!(cmd, Some(Command::LoadDiff(ref id)) if id.0 == "c1"));
    update_at(
        &mut state,
        Action::DiffLoaded(CommitId("c1".to_string()), "diff of c1".to_string()),
        0,
    );
    assert_eq!(state.log.current_diff.as_deref(), Some("diff of c1"));
    assert!(!state.log.is_loading_diff);
    update_at(&mut state, Action::SelectIndex(0), 0);
    let cmd = update_at(&mut state, Action::SelectIndex(1), 0);
    assert!(cmd.is_none());
    assert_eq!(state.log.current_diff.as_deref(), Some("diff of c1"));
}

#[test]
fn operation_start_and_completion() {
    let mut state = loaded_state();
    update_at(&mut state, Action::OperationStarted("Working...".to_string()), 10);
    assert_eq!(state.mode, AppMode::Loading);
    assert_eq!(state.active_tasks, vec!["Working...".to_string()]);
    assert_eq!(state.status_clear_time, Some(5_010));
    let cmd = update_at(&mut state, Action::OperationCompleted(Ok("Done".to_string())), 20);
    assert!(matches!(cmd, Some(Command::LoadRepo(None, 100, None))));
    assert_eq!(state.mode, AppMode::Normal);
    assert!(state.active_tasks.is_empty());
    assert_eq!(state.status_message.as_deref(), Some("Done"));
}

#[test]
fn failed_operation_shows_error_with_hints() {
    let mut state = loaded_state();
    update_at(&mut state, Action::OperationStarted("x".to_string()), 0);
    let cmd = update_at(
        &mut state,
        Action::OperationCompleted(Err("Error: conflict in a.txt".to_string())),
        42,
    );
    assert!(matches!(cmd, Some(Command::LoadRepo(None, 100, None))));
    let err = state.last_error.as_ref().unwrap();
    assert_eq!(err.timestamp_ms, 42);
    assert_eq!(
        err.suggestions,
        vec!["Try running: jj resolve (to open the external merge tool)".to_string()]
    );
}

#[test]
fn revset_error_drops_the_filter() {
    let mut state = loaded_state();
    update_at(&mut state, Action::FilterMine, 0);
    assert_eq!(state.revset.as_deref(), Some("mine()"));
    let cmd = update_at(
        &mut state,
        Action::ErrorOccurred("Failed to parse revset: bad".to_string()),
        0,
    );
    assert!(matches!(cmd, Some(Command::LoadRepo(None, 100, None))));
    assert!(state.revset.is_none());
    let cmd = update_at(&mut state, Action::ErrorOccurred("network down".to_string()), 0);
    assert!(cmd.is_none());
}

#[test]
fn applied_filters_become_recent() {
    let mut state = loaded_state();
    for i in 0..12 {
        update_at(&mut state, Action::ApplyFilter(format!("  f{i}  ")), 0);
    }
    assert_eq!(state.recent_filters.len(), 10);
    assert_eq!(state.recent_filters[0], "f11");
    update_at(&mut state, Action::ApplyFilter("f5".to_string()), 0);
    assert_eq!(state.recent_filters[0], "f5");
    assert_eq!(state.recent_filters.iter().filter(|f| *f == "f5").count(), 1);
    let cmd = update_at(&mut state, Action::ApplyFilter("   ".to_string()), 0);
    assert!(matches!(cmd, Some(Command::LoadRepo(None, 100, None))));
    assert!(state.revset.is_none());
}

#[test]
fn context_menu_runs_the_chosen_item() {
    let mut state = loaded_state();
    update_at(
        &mut state,
        Action::OpenContextMenu(Some(CommitId("c1".to_string())), (3, 4)),
        0,
    );
    assert_eq!(state.mode, AppMode::ContextMenu);
    update_at(&mut state, Action::SelectContextMenuNext, 0);
    update_at(&mut state, Action::SelectContextMenuPrev, 0);
    update_at(&mut state, Action::SelectContextMenuPrev, 0);
    assert_eq!(state.context_menu.as_ref().unwrap().selected_index, 5);
    let cmd = update_at(&mut state, Action::SelectContextMenuAction(1), 0);
    assert!(matches!(cmd, Some(Command::New(ref id)) if id.0 == "c1"));
    assert!(state.context_menu.is_none());
    assert_eq!(state.mode, AppMode::Normal);
}

#[test]
fn command_palette_runs_the_highlighted_command() {
    let mut state = loaded_state();
    update_at(&mut state, Action::EnterCommandMode, 0);
    let cp = state.command_palette.as_ref().unwrap();
    assert_eq!(cp.matches.len(), 19);
    update_at(&mut state, Action::CommandPalettePrev, 0);
    assert_eq!(state.command_palette.as_ref().unwrap().selected_index, 18);
    update_at(&mut state, Action::CommandPaletteSelect, 0);
    assert!(state.should_quit);
}

#[test]
fn tick_clears_an_old_status_and_advances_the_spinner() {
    let mut state = loaded_state();
    update_at(&mut state, Action::OperationStarted("x".to_string()), 0);
    update_at(&mut state, Action::Tick, 4_999);
    assert!(state.status_message.is_some());
    for _ in 0..4 {
        update_at(&mut state, Action::Tick, 5_000);
    }
    assert!(state.status_message.is_none());
    assert_eq!(state.frame_count, 5);
    assert_eq!(state.spinner, "⠙");
}

#[test]
fn cancel_closes_pop_ups() {
    let mut state = loaded_state();
    update_at(&mut state, Action::EnterThemeSelection, 0);
    assert_eq!(state.mode, AppMode::ThemeSelection);
    update_at(&mut state, Action::CancelMode, 0);
    assert_eq!(state.mode, AppMode::Normal);
    assert!(state.theme_selection.is_none());
}

#[test]
fn toggling_diffs_twice_restores_the_panel() {
    let mut state = loaded_state();
    update_at(&mut state, Action::ToggleDiffs, 0);
    assert!(state.show_diffs);
    assert_eq!(state.mode, AppMode::Diff);
    update_at(&mut state, Action::ToggleDiffs, 0);
    assert!(!state.show_diffs);
    assert_eq!(state.mode, AppMode::Normal);
}

#[test]
fn applied_filter_goes_first_without_its_copies() {
    let mut state = AppState::new(KeyConfig::default());
    for f in ["c", "b", "a"] {
        update_at(&mut state, Action::ApplyFilter(f.to_string()), 0);
    }
    assert_eq!(state.recent_filters, vec!["a".to_string(), "b".to_string(), "c".to_string()]);
    let cmd = update_at(&mut state, Action::ApplyFilter(" b ".to_string()), 0);
    assert_eq!(state.recent_filters, vec!["b".to_string(), "a".to_string(), "c".to_string()]);
    assert_eq!(state.revset.as_deref(), Some("b"));
    assert_eq!(state.mode, AppMode::Normal);
    assert!(state.input.is_none());
    assert!(matches!(cmd, Some(Command::LoadRepo(None, 100, Some(ref r))) if r == "b"));
}

#[test]
fn filter_mode_starts_from_the_current_revset() {
    let mut state = AppState::new(KeyConfig::default());
    update_at(&mut state, Action::EnterFilterMode, 0);
    assert_eq!(state.mode, AppMode::FilterInput);
    assert_eq!(state.input.as_ref().unwrap().text_area.lines(), vec![String::new()]);
    update_at(&mut state, Action::ApplyFilter("mine()".to_string()), 0);
    update_at(&mut state, Action::EnterFilterMode, 0);
    assert_eq!(state.input.as_ref().unwrap().text_area.lines(), vec!["mine()".to_string()]);
    assert!(state.selected_filter_index.is_none());
}
