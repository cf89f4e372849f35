use judo::app::action::Action;
use judo::app::command::Command;
use judo::app::features::vcs::handler::{
    diff_result, load_result, log_result, operation_result, snapshot_result, start_message,
    success_message,
};
use judo::app::input::{event_fits, map_event_at};
use judo::app::keys::{
    InputEvent, KeyCode, KeyEventKind, KeyInput, KeyModifiers, KeyPress, MouseButton,
    MouseEventKind, MouseInput, Size,
};
use judo::app::reducer::{update_at, would_overflow};
use judo::app::state::AppState;
use judo::domain::models::{CommitId, FileChange, FileStatus, GraphRow, GraphRowVisual, RepoStatus};
use rand::rngs::StdRng;
use rand::{Rng, SeedableRng};

fn one_row_repo() -> RepoStatus {
    RepoStatus {
        repo_name: "test-repo".to_string(),
        operation_id: "test".to_string(),
        workspace_id: "default".to_string(),
        working_copy_id: CommitId("wc".to_string()),
        graph: vec![GraphRow {
            timestamp_secs: 0,
            commit_id: CommitId("wc".to_string()),
            commit_id_short: "wc".to_string(),
            change_id: "wc".to_string(),
            change_id_short: "wc".to_string(),
            description: "desc".to_string(),
            author: "author".to_string(),
            timestamp: "time".to_string(),
            is_working_copy: true,
            is_immutable: false,
            has_conflict: false,
            parents: vec![],
            bookmarks: vec![],
            changed_files: vec![FileChange {
                path: "file.txt".to_string(),
                status: FileStatus::Modified,
            }],
            visual: GraphRowVisual::new(),
        }],
    }
}

fn random_modifiers(rng: &mut StdRng) -> KeyModifiers {
    let mut m = KeyModifiers::none();
    m.control = rng.gen_bool(0.1);
    m.alt = rng.gen_bool(0.1);
    m.shift = rng.gen_bool(0.1);
    m
}

fn random_key(rng: &mut StdRng) -> InputEvent {
    let code = match rng.gen_range(0..20) {
        0 => KeyCode::Esc,
        1 => KeyCode::Enter,
        2 => KeyCode::Left,
        3 => KeyCode::Right,
        4 => KeyCode::Up,
        5 => KeyCode::Down,
        6 => KeyCode::Home,
        7 => KeyCode::End,
        8 => KeyCode::PageUp,
        9 => KeyCode::PageDown,
        10 => KeyCode::Tab,
        11 => KeyCode::BackTab,
        12 => KeyCode::Delete,
        13 => KeyCode::Backspace,
        _ => KeyCode::Char(rng.gen_range(b' '..=b'~') as char),
    };

    let modifiers = random_modifiers(rng);
    InputEvent::Key(KeyPress {
        key: KeyInput { code, modifiers, kind: KeyEventKind::Press, state: 0 },
    })
}

fn random_mouse(rng: &mut StdRng, size: Size) -> InputEvent {
    let kind = match rng.gen_range(0..5) {
        0 => MouseEventKind::Down(MouseButton::Left),
        1 => MouseEventKind::Down(MouseButton::Right),
        2 => MouseEventKind::ScrollUp,
        3 => MouseEventKind::ScrollDown,
        _ => MouseEventKind::Moved,
    };
    InputEvent::Mouse(MouseInput {
        kind,
        column: rng.gen_range(0..size.width),
        row: rng.gen_range(0..size.height),
        modifiers: KeyModifiers::none(),
    })
}

/// What the version control system reports for a command, as the runtime
/// would send it back: every call succeeds with the sample data.
fn outcomes(command: Command) -> Vec<Action> {
    let mut actions = Vec::new();
    if let Some(start) = start_message(&command) {
        actions.push(Action::OperationStarted(start));
    }
    let success = success_message(&command).unwrap_or("");
    match command {
        Command::LoadRepo(heads, _, _) => actions.push(load_result(heads.is_some(), Ok(one_row_repo()))),
        Command::LoadRepoBackground(_, _) => {
            actions.push(Action::RepoReloadedBackground(Box::new(one_row_repo())))
        }
        Command::LoadDiff(id) => actions.push(diff_result(id, Ok("diff content".to_string()))),
        Command::Snapshot => actions.push(snapshot_result(Ok("snapshot".to_string()))),
        Command::Evolog(_) => actions.push(log_result(true, Ok("evolog".to_string()))),
        Command::OperationLog => actions.push(log_result(false, Ok("op log content".to_string()))),
        Command::Split(_) | Command::ResolveConflict(_) => {}
        _ => actions.push(operation_result(success, Ok(()))),
    }
    actions
}

/// Applies an action and what the commands it asks for report, in order.
fn run(state: &mut AppState, action: Action, now: i64) -> bool {
    let mut queue = vec![action];
    let mut steps = 0;
    while let Some(a) = queue.pop() {
        if let Action::Quit = a {
            return false;
        }
        assert!(!would_overflow(state, &a), "an action overflowed");
        if let Some(command) = update_at(state, a, now) {
            let mut more = outcomes(command);
            more.reverse();
            queue.extend(more);
        }
        steps += 1;
        assert!(steps < 1000, "commands keep asking for more commands");
    }
    !state.should_quit
}

#[test]
fn test_keystroke_fuzzing() {
    let mut rng = StdRng::seed_from_u64(42);
    let mut state = AppState::default();
    let mut size = Size { width: 80, height: 24 };
    let mut now: i64 = 1_700_000_000_000;
    assert!(run(&mut state, Action::RepoLoaded(Box::new(one_row_repo())), now));
    for _ in 0..10000 {
        now += rng.gen_range(0..1000);
        let event = match rng.gen_range(0..100) {
            0..=5 => {
                size = Size { width: rng.gen_range(10..200), height: rng.gen_range(10..100) };
                InputEvent::Resize(size.width, size.height)
            }
            6..=15 => random_mouse(&mut rng, size),
            _ => random_key(&mut rng),
        };
        if !event_fits(&state, size, &event) {
            continue;
        }
        let action = map_event_at(event.clone(), &state, size, now);
        if let InputEvent::Mouse(m) = &event {
            if m.kind == MouseEventKind::Down(MouseButton::Left) {
                state.last_click_time = Some(now);
                state.last_click_pos = Some((m.column, m.row));
            }
        }
        if let Some(action) = action {
            if !run(&mut state, action, now) {
                break;
            }
        }
        if rng.gen_bool(0.05) && !run(&mut state, Action::Tick, now) {
            break;
        }
    }
}
