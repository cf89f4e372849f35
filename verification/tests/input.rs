use judo::app::action::Action;
use judo::app::input::{event_fits, map_event_at, map_event_in, resolve_clicked_row};
use judo::app::ui::Rect;
use judo::app::keymap::{KeyConfig, KeyMap};
use judo::app::keys::{
    InputEvent, KeyCode, KeyEventKind, KeyInput, KeyModifiers, KeyPress, MouseButton,
    MouseEventKind, MouseInput, Size,
};
use judo::app::reducer::update_at;
use judo::app::state::{AppMode, AppState};
use judo::domain::models::{CommitId, FileChange, FileStatus, GraphRow, RepoStatus};

fn press(code: KeyCode, _ch: Option<char>) -> KeyPress {
    KeyPress {
        key: KeyInput {
            code,
            modifiers: KeyModifiers::none(),
            kind: KeyEventKind::Press,
            state: 0,
        },
    }
}

fn key(c: char) -> InputEvent {
    InputEvent::Key(press(KeyCode::Char(c), Some(c)))
}

fn state_with_rows() -> AppState {
    let mut state = AppState::new(KeyConfig::default());
    let mut rows = Vec::new();
    for id in ["c3", "c2", "c1"] {
        let mut r = GraphRow::default();
        r.commit_id = CommitId(id.to_string());
        r.changed_files = vec![
            FileChange { path: "a.txt".to_string(), status: FileStatus::Modified },
            FileChange { path: "b.txt".to_string(), status: FileStatus::Conflicted },
        ];
        rows.push(r);
    }
    update_at(
        &mut state,
        Action::RepoLoaded(Box::new(RepoStatus {
            repo_name: "r".to_string(),
            operation_id: "op".to_string(),
            workspace_id: "ws".to_string(),
            working_copy_id: CommitId("c3".to_string()),
            graph: rows,
        })),
        0,
    );
    state
}

const SIZE: Size = Size { width: 80, height: 24 };

#[test]
fn keys_follow_the_vim_profile() {
    let state = state_with_rows();
    assert!(matches!(map_event_at(key('j'), &state, SIZE, 0), Some(Action::SelectNext)));
    assert!(matches!(map_event_at(key('q'), &state, SIZE, 0), Some(Action::Quit)));
    assert!(matches!(map_event_at(key('S'), &state, SIZE, 0), Some(Action::EnterSquashMode)));
    assert!(map_event_at(key('Z'), &state, SIZE, 0).is_none());
}

#[test]
fn key_releases_are_ignored() {
    let state = state_with_rows();
    let mut p = press(KeyCode::Char('j'), Some('j'));
    p.key.kind = KeyEventKind::Release;
    assert!(map_event_at(InputEvent::Key(p), &state, SIZE, 0).is_none());
}

#[test]
fn custom_bindings_override_the_profile() {
    let config = KeyConfig {
        profile: "vim".to_string(),
        custom: Some(vec![
            ("x".to_string(), "Quit".to_string()),
            ("enter".to_string(), "nosuchaction".to_string()),
        ]),
    };
    let map = KeyMap::from_config(&config);
    let mut state = state_with_rows();
    state.keymap = map;
    assert!(matches!(map_event_at(key('x'), &state, SIZE, 0), Some(Action::Quit)));
    let enter = InputEvent::Key(press(KeyCode::Enter, None));
    assert!(matches!(map_event_at(enter, &state, SIZE, 0), Some(Action::ToggleDiffs)));
}

#[test]
fn diff_mode_resolves_a_conflicted_file() {
    let mut state = state_with_rows();
    update_at(&mut state, Action::FocusDiff, 0);
    assert_eq!(state.mode, AppMode::Diff);
    update_at(&mut state, Action::SelectNextFile, 0);
    assert_eq!(state.log.selected_file_index, Some(1));
    match map_event_at(key('m'), &state, SIZE, 0) {
        Some(Action::ResolveConflict(p)) => assert_eq!(p, "b.txt"),
        other => panic!("unexpected {:?}", other),
    }
}

#[test]
fn clicks_select_rows_and_files() {
    let mut state = state_with_rows();
    assert_eq!(resolve_clicked_row(&state, 0), Some((0, None)));
    assert_eq!(resolve_clicked_row(&state, 3), Some((1, None)));
    assert_eq!(resolve_clicked_row(&state, 6), None);
    state.show_diffs = true;
    assert_eq!(resolve_clicked_row(&state, 2), Some((0, Some(0))));
    assert_eq!(resolve_clicked_row(&state, 3), Some((0, Some(1))));
    assert_eq!(resolve_clicked_row(&state, 4), Some((1, None)));
    state.show_diffs = false;
    let click = InputEvent::Mouse(MouseInput {
        kind: MouseEventKind::Down(MouseButton::Left),
        column: 5,
        row: 4,
        modifiers: KeyModifiers::none(),
    });
    assert!(matches!(map_event_at(click, &state, SIZE, 0), Some(Action::SelectIndex(1))));
    let scroll = InputEvent::Mouse(MouseInput {
        kind: MouseEventKind::ScrollDown,
        column: 5,
        row: 4,
        modifiers: KeyModifiers::none(),
    });
    assert!(matches!(map_event_at(scroll, &state, SIZE, 0), Some(Action::SelectNext)));
}

#[test]
fn double_click_toggles_diffs() {
    let mut state = state_with_rows();
    state.last_click_time = Some(1_000);
    state.last_click_pos = Some((5, 4));
    let click = InputEvent::Mouse(MouseInput {
        kind: MouseEventKind::Down(MouseButton::Left),
        column: 5,
        row: 4,
        modifiers: KeyModifiers::none(),
    });
    assert!(matches!(map_event_at(click.clone(), &state, SIZE, 1_200), Some(Action::ToggleDiffs)));
    assert!(matches!(map_event_at(click, &state, SIZE, 1_600), Some(Action::SelectIndex(1))));
}

#[test]
fn bookmark_input_submits_the_trimmed_name() {
    let mut state = state_with_rows();
    update_at(&mut state, Action::SetBookmarkIntent, 0);
    assert_eq!(state.mode, AppMode::BookmarkInput);
    state.input = Some(judo::app::state::InputState {
        text_area: judo::app::state::AppTextArea::with_text("  feature  "),
    });
    let enter = InputEvent::Key(press(KeyCode::Enter, None));
    match map_event_at(enter, &state, SIZE, 0) {
        Some(Action::SetBookmark(id, name)) => {
            assert_eq!(id.0, "c3");
            assert_eq!(name, "feature");
        }
        other => panic!("unexpected {:?}", other),
    }
}

#[test]
fn welcome_screen_keys() {
    let mut state = AppState::new(KeyConfig::default());
    state.mode = AppMode::NoRepo;
    assert!(matches!(map_event_at(key('i'), &state, SIZE, 0), Some(Action::InitRepo)));
    assert!(matches!(map_event_at(key('q'), &state, SIZE, 0), Some(Action::Quit)));
    assert!(map_event_at(key('x'), &state, SIZE, 0).is_none());
}

#[test]
fn keys_map_when_the_selected_row_is_too_tall() {
    let mut state = state_with_rows();
    state.show_diffs = true;
    if let Some(repo) = state.repo.as_mut() {
        repo.graph[0].changed_files =
            vec![FileChange { path: "f".to_string(), status: FileStatus::Modified }; 65534];
    }
    let q = key('q');
    assert!(event_fits(&state, SIZE, &q));
    assert!(matches!(map_event_at(q, &state, SIZE, 0), Some(Action::Quit)));
    let click = InputEvent::Mouse(MouseInput {
        kind: MouseEventKind::Down(MouseButton::Left),
        column: 5,
        row: 3,
        modifiers: KeyModifiers::none(),
    });
    assert!(!event_fits(&state, SIZE, &click));
    let scroll = InputEvent::Mouse(MouseInput {
        kind: MouseEventKind::ScrollDown,
        column: 5,
        row: 3,
        modifiers: KeyModifiers::none(),
    });
    assert!(event_fits(&state, SIZE, &scroll));
}

#[test]
fn typed_keys_edit_the_text_input() {
    let mut state = state_with_rows();
    update_at(&mut state, Action::DescribeRevisionIntent, 0);
    state.input = Some(judo::app::state::InputState {
        text_area: judo::app::state::AppTextArea::with_text(""),
    });
    for c in ['h', 'i'] {
        update_at(&mut state, Action::TextAreaInput(press(KeyCode::Char(c), Some(c))), 0);
    }
    update_at(&mut state, Action::TextAreaInput(press(KeyCode::Enter, None)), 0);
    update_at(&mut state, Action::TextAreaInput(press(KeyCode::Char('x'), Some('x'))), 0);
    let mut released = press(KeyCode::Char('y'), Some('y'));
    released.key.kind = KeyEventKind::Release;
    update_at(&mut state, Action::TextAreaInput(released), 0);
    let lines = state.input.as_ref().unwrap().text_area.lines();
    assert_eq!(lines, vec!["hi".to_string(), "x".to_string()]);
}

#[test]
fn mouse_events_follow_the_given_panels() {
    let mut state = state_with_rows();
    state.show_diffs = true;
    let graph = Rect { x: 0, y: 1, width: 40, height: 22 };
    let diff = Rect { x: 40, y: 1, width: 40, height: 22 };
    let mouse = |kind: MouseEventKind, column: u16, row: u16| {
        InputEvent::Mouse(MouseInput { kind, column, row, modifiers: KeyModifiers::none() })
    };
    let left = MouseEventKind::Down(MouseButton::Left);
    // the third line inside the graph panel is the first file of the selected row
    assert!(matches!(
        map_event_in(mouse(left, 5, 4), &state, SIZE, graph, diff, 0),
        Some(Action::SelectFile(0))
    ));
    // a click on the diff panel focuses it
    assert!(matches!(map_event_in(mouse(left, 50, 4), &state, SIZE, graph, diff, 0), Some(Action::FocusDiff)));
    // scrolling over the diff panel scrolls the diff, elsewhere the selection
    assert!(matches!(
        map_event_in(mouse(MouseEventKind::ScrollDown, 50, 4), &state, SIZE, graph, diff, 0),
        Some(Action::ScrollDiffDown(1))
    ));
    assert!(matches!(
        map_event_in(mouse(MouseEventKind::ScrollDown, 5, 4), &state, SIZE, graph, diff, 0),
        Some(Action::SelectNext)
    ));
    // the same click lands on the diff panel once the panels have moved
    let moved_graph = Rect { x: 0, y: 1, width: 4, height: 22 };
    let moved_diff = Rect { x: 4, y: 1, width: 76, height: 22 };
    assert!(matches!(
        map_event_in(mouse(left, 5, 4), &state, SIZE, moved_graph, moved_diff, 0),
        Some(Action::FocusDiff)
    ));
}
