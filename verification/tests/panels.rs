use judo::app::action::Action;
use judo::app::state::ContextMenuState;
use judo::app::ui::Rect;
use judo::domain::models::CommitId;
use judo::app::keymap::KeyConfig;
use judo::app::state::{AppMode, AppState, ErrorSeverity, ErrorState, Panel};
use judo::components::diff_view::{classify_diff_line, diff_columns_cut, diff_view_lines, DiffLineKind};
use judo::components::footer::{footer_layout, status_segment, FooterGroup, FooterItem, StatusTone};
use judo::components::revision_graph::{age_level, empty_graph_message, panel_look, PanelLook};

fn item(key: &'static str, desc: &'static str) -> FooterItem {
    FooterItem { key, desc, highlighted: false }
}

fn groups() -> Vec<FooterGroup> {
    vec![
        FooterGroup { name: "NAV", items: vec![item("j", "down"), item("k", "up")] },
        FooterGroup { name: "EMPTY", items: vec![] },
        FooterGroup { name: "APP", items: vec![item("q", "quit")] },
    ]
}

#[test]
fn test_footer_layout_narrow_cuts_items_and_groups() {
    assert_eq!(footer_layout(&groups(), 10, 30), vec![(0, false, 1)]);
}

#[test]
fn test_footer_layout_wide_shows_names_and_skips_empty_groups() {
    assert_eq!(footer_layout(&groups(), 10, 120), vec![(0, true, 2), (2, true, 1)]);
}

#[test]
fn test_footer_layout_nothing_fits() {
    assert!(footer_layout(&groups(), 10, 3).is_empty());
    assert!(footer_layout(&groups(), 500, 200).is_empty());
}

#[test]
fn test_status_segment_prefers_error_then_message() {
    let mut state = AppState::new(KeyConfig::default());
    assert_eq!(status_segment(&state), ("  READY  ".to_string(), StatusTone::Ready));
    state.status_message = Some("Saved".to_string());
    assert_eq!(status_segment(&state), ("  Saved  ".to_string(), StatusTone::Info));
    state.last_error = Some(ErrorState {
        message: "boom".to_string(),
        timestamp_ms: 0,
        suggestions: vec![],
        severity: ErrorSeverity::Error,
    });
    assert_eq!(status_segment(&state), ("  ERROR: boom  ".to_string(), StatusTone::Error));
}

#[test]
fn test_age_level_buckets() {
    let day = 86_400;
    assert_eq!(age_level(1_000_000_000, 1_000_000_000 + 50), 0);
    assert_eq!(age_level(7 * day - 1, 0), 0);
    assert_eq!(age_level(7 * day, 0), 1);
    assert_eq!(age_level(30 * day - 1, 0), 1);
    assert_eq!(age_level(30 * day, 0), 2);
    assert_eq!(age_level(180 * day - 1, 0), 2);
    assert_eq!(age_level(180 * day, 0), 3);
}

#[test]
fn test_empty_graph_message_by_filter() {
    assert_eq!(empty_graph_message(None), " Repository is empty ");
    assert_eq!(empty_graph_message(Some("conflicts()")), " \u{1F389} No Conflicts Found ");
    assert_eq!(empty_graph_message(Some("mine()")), " No results for: mine() ");
}

#[test]
fn test_panel_look_follows_focus_and_mode() {
    assert_eq!(panel_look(Panel::Graph, AppMode::Normal), PanelLook::Focused);
    assert_eq!(panel_look(Panel::Diff, AppMode::Diff), PanelLook::Active);
    assert_eq!(panel_look(Panel::Graph, AppMode::Help), PanelLook::Inactive);
}

#[test]
fn test_classify_diff_lines() {
    assert_eq!(classify_diff_line("Commit ID: abc"), DiffLineKind::Header);
    assert_eq!(classify_diff_line("Author   : me"), DiffLineKind::Header);
    assert_eq!(classify_diff_line("+ Added src/a.rs"), DiffLineKind::FileAdded);
    assert_eq!(classify_diff_line("- Deleted src/b.rs"), DiffLineKind::FileDeleted);
    assert_eq!(classify_diff_line("~ Modified src/c.rs"), DiffLineKind::FileModified);
    assert_eq!(classify_diff_line("    ..."), DiffLineKind::Elided);
    assert_eq!(classify_diff_line("       12: new line"), DiffLineKind::LineAdded);
    assert_eq!(classify_diff_line("  11     : old line"), DiffLineKind::LineRemoved);
    assert_eq!(classify_diff_line("  11   12: same"), DiffLineKind::Context);
    assert_eq!(classify_diff_line("plain text"), DiffLineKind::Context);
    assert_eq!(classify_diff_line(""), DiffLineKind::Context);
}

#[test]
fn test_diff_view_lines_pairs_text_and_kind() {
    let content = "Commit ID: abc\n+ Added x\n        3: y\r\nz\n";
    assert!(diff_columns_cut(content));
    let lines = diff_view_lines(content);
    assert_eq!(
        lines,
        vec![
            ("Commit ID: abc".to_string(), DiffLineKind::Header),
            ("+ Added x".to_string(), DiffLineKind::FileAdded),
            ("        3: y".to_string(), DiffLineKind::LineAdded),
            ("z".to_string(), DiffLineKind::Context),
        ]
    );
}

#[test]
fn test_diff_columns_cut_spots_split_characters() {
    // 'é' takes bytes 3..5, so byte 4 is inside it and byte 9 is a colon.
    assert!(!diff_columns_cut("abcé1234: x"));
    assert!(diff_columns_cut("abcé123: x"));
}

#[test]
fn test_context_menu_stays_within_the_screen() {
    let menu = ContextMenuState {
        commit_id: CommitId("abc".to_string()),
        x: 75,
        y: 22,
        selected_index: 0,
        actions: vec![
            ("Describe".to_string(), Action::Quit),
            ("Abandon revision".to_string(), Action::Quit),
        ],
    };
    let area = Rect { x: 0, y: 0, width: 80, height: 24 };
    let r = menu.calculate_rect(area);
    // 16 bytes of label plus 6 columns; 2 items plus 2 rows.
    assert_eq!((r.width, r.height), (22, 4));
    assert_eq!((r.x, r.y), (58, 18));
    assert!(r.x + r.width <= area.width && r.y + r.height <= area.height);
    let inside = ContextMenuState { x: 10, y: 5, ..menu };
    let r = inside.calculate_rect(area);
    assert_eq!((r.x, r.y), (10, 5));
}
