use judo::components::modals::manager::{modal_for, ModalKind};
use judo::app::keymap::KeyConfig;
use judo::app::state::AppState;
use judo::components::modals::manager::{input_title, is_modal_active};
use judo::app::state::{CommandPaletteState, OperationLogState, ThemeSelectionState};
use judo::components::diff_view::{DiffLineKind, DiffView};
use judo::components::modals::command_palette::CommandPaletteModal;
use judo::components::modals::help::HelpModal;
use judo::components::modals::operation_log::OperationLogModal;
use judo::components::modals::theme_selection::ThemeSelectionModal;
use judo::components::revision_graph::{
    description_line, file_prefix, graph_lines, PanelContent, RevisionGraph, RevisionGraphPanel,
};
use judo::app::state::{AppMode, Panel};
use judo::domain::models::{CommitId, FileChange, FileStatus, GraphRow, RepoStatus};
use judo::theme::PaletteType;

fn row(id: &str, column: usize, active: Vec<bool>, below: Vec<bool>, parents: Vec<usize>) -> GraphRow {
    let mut r = GraphRow::new(CommitId(id.to_string()), vec![]);
    r.visual.column = column;
    r.visual.active_lanes = active;
    r.visual.connector_lanes = below;
    r.visual.parent_min = parents.iter().copied().chain(std::iter::once(column)).min().unwrap();
    r.visual.parent_max = parents.iter().copied().chain(std::iter::once(column)).max().unwrap();
    r.visual.parent_columns = parents;
    r
}

#[test]
fn test_graph_lines_draw_node_pipes_and_merge() {
    // A merge in lane 0 whose second parent runs in lane 1.
    let mut r = row("m", 0, vec![true, false], vec![true, true], vec![0, 1]);
    r.is_working_copy = true;
    let lines = graph_lines(&r, 3);
    assert_eq!(lines, vec![vec!["◉", " "], vec!["├", "╮"], vec!["│", "│"]]);
    // An immutable root with a pipe passing to its right.
    let mut root = row("r", 0, vec![true, true], vec![false, true], vec![]);
    root.is_immutable = true;
    assert_eq!(graph_lines(&root, 2), vec![vec!["◆", "│"], vec![" ", "│"]]);
}

#[test]
fn test_description_line_takes_the_first_line() {
    let mut r = row("a", 0, vec![true], vec![true], vec![0]);
    r.description = "Fix the parser\n\nLonger text".to_string();
    assert_eq!(description_line(&r), Some("Fix the parser".to_string()));
    r.description = String::new();
    assert_eq!(description_line(&r), None);
    r.description = "\nsecond".to_string();
    assert_eq!(description_line(&r), None);
}

#[test]
fn test_file_prefix_marks_each_status() {
    assert_eq!(file_prefix(FileStatus::Added), "+ ");
    assert_eq!(file_prefix(FileStatus::Modified), "~ ");
    assert_eq!(file_prefix(FileStatus::Deleted), "- ");
    assert_eq!(file_prefix(FileStatus::Conflicted), "! ");
}

fn repo(rows: Vec<GraphRow>) -> RepoStatus {
    RepoStatus {
        repo_name: "r".to_string(),
        operation_id: "op".to_string(),
        workspace_id: "default".to_string(),
        working_copy_id: CommitId("a".to_string()),
        graph: rows,
    }
}

#[test]
fn test_row_view_combines_height_age_and_marks() {
    let mut r = row("a", 0, vec![true], vec![true], vec![0]);
    r.timestamp_secs = 0;
    r.description = "Title".to_string();
    r.changed_files = vec![FileChange { path: "x".to_string(), status: FileStatus::Added }];
    let repo = repo(vec![r]);
    let marked = vec![CommitId("a".to_string())];
    let graph = RevisionGraph {
        repo: &repo,
        show_diffs: true,
        selected_file_index: None,
        selected_ids: &marked,
        now_secs: 40 * 86_400,
    };
    let view = graph.row_view(0, true);
    assert_eq!(view.height, 3);
    assert_eq!(view.age, 2);
    assert_eq!(view.graph.len(), 3);
    assert_eq!(view.description, Some("Title".to_string()));
    assert!(view.highlighted);
    let none = vec![];
    let graph = RevisionGraph { selected_ids: &none, ..graph };
    let view = graph.row_view(0, false);
    assert_eq!(view.height, 2);
    assert!(!view.highlighted);
}

#[test]
fn test_panel_content_loading_empty_or_graph() {
    let ids = vec![];
    let empty = repo(vec![]);
    let full = repo(vec![row("a", 0, vec![true], vec![true], vec![0])]);
    let panel = RevisionGraphPanel {
        repo: None,
        show_diffs: false,
        selected_file_index: None,
        spinner: "|",
        focused_panel: Panel::Graph,
        mode: AppMode::Normal,
        revset: Some("mine()"),
        selected_ids: &ids,
    };
    assert!(matches!(panel.content(), PanelContent::Loading));
    let panel = RevisionGraphPanel { repo: Some(&empty), ..panel };
    match panel.content() {
        PanelContent::Empty(m) => assert_eq!(m, " No results for: mine() "),
        other => panic!("expected an empty graph, got {other:?}"),
    }
    let panel = RevisionGraphPanel { repo: Some(&full), ..panel };
    assert!(matches!(panel.content(), PanelContent::Graph));
}

#[test]
fn test_diff_view_lines_or_placeholder() {
    assert!(DiffView { diff_content: None, scroll_offset: 0 }.lines().is_none());
    assert!(DiffView { diff_content: Some(""), scroll_offset: 0 }.lines().is_none());
    let v = DiffView { diff_content: Some("~ Modified a\n    ..."), scroll_offset: 3 };
    assert_eq!(
        v.lines(),
        Some(vec![
            ("~ Modified a".to_string(), DiffLineKind::FileModified),
            ("    ...".to_string(), DiffLineKind::Elided),
        ])
    );
}

#[test]
fn test_help_rows_cover_every_category() {
    let rows = HelpModal::rows();
    assert_eq!(rows.len(), 31);
    assert_eq!(rows[0], ("Navigation", ""));
    assert_eq!(rows[13], (" S", "Squash into parent"));
    assert_eq!(rows[30], (" q", "Quit"));
}

#[test]
fn test_palette_rows_follow_matches() {
    let state = CommandPaletteState { query: "push".to_string(), matches: vec![11, 0], selected_index: 1 };
    let rows = CommandPaletteModal { state: &state }.rows();
    assert_eq!(rows, vec![("Push", "Push to the remote", false), ("Snapshot", "Snapshot the working copy", true)]);
}

#[test]
fn test_theme_rows_and_log_line() {
    let ts = ThemeSelectionState { selected_index: 0, themes: vec![PaletteType::CatppuccinMocha] };
    assert_eq!(ThemeSelectionModal { state: &ts }.rows(), vec![("Catppuccin Mocha", true)]);
    let op = OperationLogState { content: vec!["a".to_string(), "b".to_string()], scroll: 1 };
    assert_eq!(OperationLogModal { state: &op }.highlighted_line(), 1);
}

#[test]
fn test_modal_activity_and_input_titles() {
    let mut state = AppState::new(KeyConfig::default());
    assert!(!is_modal_active(&state));
    state.mode = AppMode::Help;
    assert!(is_modal_active(&state));
    state.mode = AppMode::Diff;
    assert!(!is_modal_active(&state));
    assert_eq!(input_title(AppMode::BookmarkInput), Some(" SET BOOKMARK "));
    assert_eq!(input_title(AppMode::Input), Some(" DESCRIBE REVISION "));
    assert_eq!(input_title(AppMode::CommitInput), None);
}

#[test]
fn test_modal_for_follows_mode_and_state() {
    let mut state = AppState::new(KeyConfig::default());
    assert!(matches!(modal_for(&state), ModalKind::Nothing));
    state.mode = AppMode::Help;
    assert!(matches!(modal_for(&state), ModalKind::Help));
    state.mode = AppMode::BookmarkInput;
    assert!(matches!(modal_for(&state), ModalKind::Nothing));
    state.input = Some(judo::app::state::InputState {
        text_area: judo::app::state::AppTextArea::empty(),
    });
    assert!(matches!(modal_for(&state), ModalKind::TextInput));
    state.mode = AppMode::FilterInput;
    assert!(matches!(modal_for(&state), ModalKind::Filter));
    state.mode = AppMode::CommandPalette;
    assert!(matches!(modal_for(&state), ModalKind::Nothing));
    state.mode = AppMode::RebaseSelect;
    assert!(matches!(modal_for(&state), ModalKind::RebaseSelect));
}
