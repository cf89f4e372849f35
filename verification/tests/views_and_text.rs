use judo::app::command_palette::{get_commands, search_commands};
use judo::app::features::navigation::calculate_new_index;
use judo::app::features::vcs::handler::{
    has_parent_component, load_result, operation_result, start_message, success_message,
};
use judo::app::action::Action;
use judo::app::command::Command;
use judo::app::keymap::KeyConfig;
use judo::app::state::{default_preset_filters, get_revset_reference, AppMode, AppState, AppTextArea};
use judo::app::ui::{body_constraints_for, get_layout, Constraint, Rect};
use judo::clock::{clock_millis, now_millis, CLOCK_LIMIT_MS};
use judo::components::footer::get_groups;
use judo::components::modals::helpers::{centered_rect, line_constraints, percentages};
use judo::components::revision_graph::{calculate_row_height, connector_symbol, node_symbol};
use judo::domain::models::{CommitId, FileChange, FileStatus, GraphRow, GraphRowVisual};
use judo::text::{contains, is_whitespace, join, lines, starts_with, to_lowercase, trim, usize_text};

#[test]
fn new_index_wraps_in_both_directions() {
    assert_eq!(calculate_new_index(Some(2), 1, 3), 0);
    assert_eq!(calculate_new_index(Some(0), -1, 3), 2);
    assert_eq!(calculate_new_index(Some(1), 1, 3), 2);
    assert_eq!(calculate_new_index(None, 1, 3), 0);
    assert_eq!(calculate_new_index(Some(5), 1, 0), 0);
    assert_eq!(calculate_new_index(Some(7), -10, 4), 1);
}

#[test]
fn search_prefers_names_then_descriptions() {
    assert_eq!(search_commands(""), (0..19).collect::<Vec<usize>>());
    let commands = get_commands();
    assert_eq!(commands.len(), 19);
    let hits = search_commands("FILTER");
    let names: Vec<&str> = hits.iter().map(|&i| commands[i].name).collect();
    assert_eq!(
        names,
        vec!["Filter: Mine", "Filter: Trunk", "Filter: Conflicts", "Filter: Custom"]
    );
    let hits = search_commands("revision");
    let names: Vec<&str> = hits.iter().map(|&i| commands[i].name).collect();
    assert_eq!(
        names,
        vec![
            "Describe",
            "New Child",
            "Edit",
            "Abandon",
            "Squash",
            "Set Bookmark",
            "Filter: Mine",
            "Filter: Trunk",
            "Filter: Conflicts",
        ]
    );
    assert!(search_commands("zzz").is_empty());
}

#[test]
fn text_helpers() {
    assert_eq!(to_lowercase("MiXeD"), "mixed");
    assert_eq!(trim("  a b \t\n"), "a b");
    assert!(contains("hello world", "o w"));
    assert!(!contains("abc", "abcd"));
    assert!(starts_with("@@ -1 +1 @@", "@@"));
    assert_eq!(lines("a\r\nb\n\nc\n"), vec!["a", "b", "", "c"]);
    assert!(lines("").is_empty());
    assert_eq!(join(&vec!["x".to_string(), "y".to_string()], ", "), "x, y");
    assert_eq!(usize_text(0), "0");
    assert_eq!(usize_text(1204), "1204");
}

#[test]
fn text_area_holds_lines() {
    let area = AppTextArea::with_text("one\ntwo");
    assert_eq!(area.lines(), vec!["one".to_string(), "two".to_string()]);
    assert_eq!(AppTextArea::empty().lines(), vec![String::new()]);
}

#[test]
fn clock_is_after_2020() {
    assert!(now_millis() > 1_577_836_800_000);
}

#[test]
fn presets_and_revset_reference() {
    let presets = default_preset_filters();
    assert_eq!(presets.len(), 20);
    assert_eq!(presets[0], "all()");
    assert_eq!(presets[19], "working_copies()");
    let reference = get_revset_reference();
    assert_eq!(reference.len(), 8);
    assert!(!reference[0].entries.is_empty());
}

#[test]
fn row_heights_and_glyphs() {
    let mut row = GraphRow::default();
    row.changed_files = vec![
        FileChange { path: "a".to_string(), status: FileStatus::Added },
        FileChange { path: "b".to_string(), status: FileStatus::Conflicted },
    ];
    assert_eq!(calculate_row_height(&row, true, true), 4);
    assert_eq!(calculate_row_height(&row, true, false), 2);
    assert_eq!(calculate_row_height(&row, false, true), 2);
    assert_eq!(node_symbol(&row), "○");
    row.is_working_copy = true;
    assert_eq!(node_symbol(&row), "◉");

    let mut v = GraphRowVisual::new();
    v.column = 1;
    v.parent_columns = vec![0, 1, 2];
    v.parent_min = 0;
    v.parent_max = 2;
    assert_eq!(connector_symbol(&v, 1, 1, true, true), "┼");
    assert_eq!(connector_symbol(&v, 0, 1, true, true), "┤");
    assert_eq!(connector_symbol(&v, 2, 1, false, false), "╮");
    assert_eq!(connector_symbol(&v, 2, 2, false, true), "│");
    v.parent_columns = vec![];
    assert_eq!(connector_symbol(&v, 1, 1, false, false), " ");
}

#[test]
fn footer_groups_follow_the_mode() {
    let mut state = AppState::new(KeyConfig::default());
    let groups = get_groups(&state);
    let names: Vec<&str> = groups.iter().map(|g| g.name).collect();
    assert_eq!(names, vec!["NAV", "EDIT", "VCS", "APP"]);
    assert!(!groups[0].items[3].highlighted);
    state.revset = Some("mine()".to_string());
    state.show_diffs = true;
    let groups = get_groups(&state);
    let names: Vec<&str> = groups.iter().map(|g| g.name).collect();
    assert_eq!(names, vec!["NAV", "DIFF", "EDIT", "VCS", "APP"]);
    assert!(groups[0].items[3].highlighted);
    assert_eq!(groups[0].items[4].key, "Tab");
    state.mode = AppMode::NoRepo;
    let names: Vec<&str> = get_groups(&state).iter().map(|g| g.name).collect();
    assert_eq!(names, vec!["INIT", "APP"]);
}

#[test]
fn command_messages() {
    let ids = vec![CommitId("a1".to_string()), CommitId("b2".to_string())];
    let m = start_message(&Command::Squash(ids.clone())).unwrap();
    assert_eq!(m, "Squashing 2 revisions...");
    let m = start_message(&Command::Rebase(vec![CommitId("a1".to_string())], "main".to_string()))
        .unwrap();
    assert_eq!(m, "Rebasing a1 onto main...");
    assert!(start_message(&Command::LoadDiff(CommitId("x".to_string()))).is_none());
    assert_eq!(success_message(&Command::Undo), Some("Undo successful"));
    match operation_result("Done", Err("boom".to_string())) {
        Action::OperationCompleted(Err(m)) => assert_eq!(m, "Error: boom"),
        other => panic!("unexpected {:?}", other),
    }
    match load_result(true, Err("offline".to_string())) {
        Action::ErrorOccurred(m) => assert_eq!(m, "Failed to load repo: offline"),
        other => panic!("unexpected {:?}", other),
    }
    assert!(has_parent_component("a/../b"));
    assert!(has_parent_component(".."));
    assert!(!has_parent_component("a/..b/c"));
    assert!(!has_parent_component("src/main.rs"));
}

#[test]
fn layout_splits_the_screen() {
    let state = AppState::new(KeyConfig::default());
    let layout = get_layout(Rect { x: 0, y: 0, width: 80, height: 24 }, &state);
    assert_eq!(layout.main.len(), 3);
    assert_eq!(layout.main[0], Rect { x: 0, y: 0, width: 80, height: 1 });
    assert_eq!(layout.main[1], Rect { x: 0, y: 1, width: 80, height: 22 });
    assert_eq!(layout.body[0].width, 80);
    assert_eq!(layout.body[1].width, 0);
    let r = centered_rect(50, 50, Rect { x: 0, y: 0, width: 100, height: 40 });
    assert_eq!(r, Rect { x: 25, y: 10, width: 50, height: 20 });
}

#[test]
fn selected_commit_ids_are_each_listed_once() {
    let mut state = AppState::new(judo::app::keymap::KeyConfig::default());
    state.log.selected_ids = vec![
        judo::domain::models::CommitId("a".to_string()),
        judo::domain::models::CommitId("b".to_string()),
        judo::domain::models::CommitId("a".to_string()),
    ];
    let ids: Vec<String> = state.get_selected_commit_ids().into_iter().map(|c| c.0).collect();
    assert_eq!(ids, vec!["a".to_string(), "b".to_string()]);
}

#[test]
fn trim_drops_unicode_white_space() {
    assert_eq!(judo::text::trim("\u{3000}\u{A0} x y\u{2028}\t"), "x y");
    assert_eq!(judo::text::trim("\u{200B}x"), "\u{200B}x");
}

#[test]
fn clock_readings_in_milliseconds() {
    assert_eq!(clock_millis(true, 2, 5_999_999), 2_005);
    assert_eq!(clock_millis(false, 1, 500_000_000), -1_500);
    assert_eq!(clock_millis(true, 0, 0), 0);
    assert_eq!(clock_millis(true, u64::MAX, 999_999_999), CLOCK_LIMIT_MS);
    assert_eq!(clock_millis(false, u64::MAX, 0), -CLOCK_LIMIT_MS);
    let now = now_millis();
    assert!(-CLOCK_LIMIT_MS <= now && now <= CLOCK_LIMIT_MS);
}

#[test]
fn white_space_as_std_tells() {
    for u in 0u32..0x3100 {
        if let Some(c) = char::from_u32(u) {
            assert_eq!(is_whitespace(c), c.is_whitespace(), "{u:#x}");
        }
    }
    assert!(is_whitespace('\u{3000}'));
    assert!(!is_whitespace('\u{200B}'));
    assert!(!is_whitespace('x'));
}

#[test]
fn layout_constraints() {
    assert_eq!(body_constraints_for(false, 30), vec![Constraint::Percentage(100), Constraint::Percentage(0)]);
    assert_eq!(body_constraints_for(true, 30), vec![Constraint::Percentage(70), Constraint::Percentage(30)]);
    assert_eq!(body_constraints_for(true, 120), vec![Constraint::Percentage(0), Constraint::Percentage(120)]);
    assert_eq!(
        percentages(60),
        vec![Constraint::Percentage(20), Constraint::Percentage(60), Constraint::Percentage(20)]
    );
    let area = Rect { x: 0, y: 0, width: 100, height: 40 };
    assert_eq!(line_constraints(10, area), vec![Constraint::Length(15), Constraint::Length(10), Constraint::Min(0)]);
}

#[test]
fn layout_parts_tile_the_screen() {
    for (w, h, show) in [(80u16, 24u16, false), (80, 24, true), (120, 40, true), (7, 3, true), (0, 0, true)] {
        let mut state = AppState::new(KeyConfig::default());
        state.show_diffs = show;
        state.diff_ratio = 40;
        let area = Rect { x: 0, y: 0, width: w, height: h };
        let layout = get_layout(area, &state);
        assert_eq!(layout.main.len(), 3);
        assert_eq!(layout.body.len(), 2);
        for (i, m) in layout.main.iter().enumerate() {
            assert_eq!((m.x, m.width), (0, w));
            assert!(m.y as u32 + m.height as u32 <= h as u32);
            if i > 0 {
                let p = layout.main[i - 1];
                assert!(p.y + p.height <= m.y);
            }
        }
        let mid = layout.main[1];
        let (g, d) = (layout.body[0], layout.body[1]);
        for b in [g, d] {
            assert_eq!((b.y, b.height), (mid.y, mid.height));
            assert!(mid.x <= b.x && b.x + b.width <= mid.x + mid.width);
        }
        assert!(g.x + g.width <= d.x);
    }
    let outer = Rect { x: 3, y: 2, width: 50, height: 30 };
    for r in [centered_rect(60, 20, outer), judo::components::modals::helpers::centered_rect_fixed_height(80, 5, outer)] {
        assert!(outer.x <= r.x && r.x + r.width <= outer.x + outer.width);
        assert!(outer.y <= r.y && r.y + r.height <= outer.y + outer.height);
    }
}
