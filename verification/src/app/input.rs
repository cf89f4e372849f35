//! From terminal events to actions: which action a key, a click or a
//! scroll asks for in each mode.
use crate::app::action::Action;
use crate::app::keymap::{input_text, input_text_of, key_action};
use crate::app::keys::{
    InputEvent, KeyCode, KeyEventKind, KeyPress, MouseButton, MouseEventKind, MouseInput, Size,
};
use crate::app::state::{AppMode, AppState, ContextMenuState};
use crate::app::ui::{get_layout, screen_split, Rect};
use crate::clock::now_millis;
use crate::components::revision_graph::{calculate_row_height, row_height};
use crate::domain::models::{FileStatus, GraphRow};
use crate::text::{join, joined, trim, trimmed};
use vstd::prelude::*;

verus! {

broadcast use vstd::string::group_string_axioms;

/// Two clicks on one cell within this many milliseconds are a double click.
pub const DOUBLE_CLICK_MS: i64 = 500;

/// The row of `rows`, from `from` on, that the line `c` of the table falls
/// in, the rows being stacked from the line `y` down; with the index of the
/// file line it falls on, when the row lists files.
pub open spec fn click_target(
    rows: Seq<GraphRow>,
    from: int,
    y: int,
    sel: Option<usize>,
    show: bool,
    c: int,
) -> Option<(int, Option<int>)>
    decreases rows.len() - from,
{
    if from < 0 || from >= rows.len() {
        None
    } else {
        let is_sel = sel matches Some(k) && k == from;
        let h = row_height(rows[from], is_sel, show);
        if y <= c && c < y + h {
            Some(
                (
                    from,
                    if is_sel && show && c >= y + 2 {
                        Some(c - (y + 2))
                    } else {
                        None
                    },
                ),
            )
        } else {
            click_target(rows, from + 1, y + h, sel, show, c)
        }
    }
}

/// The row (and file) under the line `c` of the revision table, whose first
/// shown row is the table's offset.
pub open spec fn clicked_target(s: AppState, c: int) -> Option<(int, Option<int>)> {
    match s.repo {
        Some(r) => click_target(
            r.graph@,
            s.log.list_state.offset as int,
            0,
            s.log.list_state.selected,
            s.show_diffs,
            c,
        ),
        None => None,
    }
}

/// The selected row's height fits a terminal's line count.
pub open spec fn rows_fit(s: AppState) -> bool {
    s.show_diffs ==> (s.selected_row() matches Some(row) ==> row_height(row, true, true)
        <= u16::MAX)
}

proof fn lemma_height_fits(s: AppState, i: usize)
    requires
        rows_fit(s),
        s.repo is Some,
        i < s.repo->0.graph@.len(),
    ensures
        row_height(s.repo->0.graph@[i as int], s.log.list_state.selected == Some(i), s.show_diffs)
            <= u16::MAX,
{
    let row = s.repo->0.graph@[i as int];
    let sel = s.log.list_state.selected == Some(i);
    if sel && s.show_diffs {
        assert(s.selected_row() == Some(row));
    }
}

/// The row (and file line) under the line `clicked_row` of the revision
/// table (see `clicked_target`).
pub fn resolve_clicked_row(app_state: &AppState, clicked_row: usize) -> (res: Option<(usize, Option<usize>)>)
    requires
        rows_fit(*app_state),
    ensures
        match res {
            Some((i, f)) => clicked_target(*app_state, clicked_row as int) == Some(
                (
                    i as int,
                    match f {
                        Some(x) => Some(x as int),
                        None => None,
                    },
                ),
            ),
            None => clicked_target(*app_state, clicked_row as int) is None,
        },
{
    let offset = app_state.log.list_state.offset();
    let selected = app_state.log.list_state.selected();
    let show = app_state.show_diffs;
    match &app_state.repo {
        None => None,
        Some(repo) => {
            let ghost rows = repo.graph@;
            let n = repo.graph.len();
            let c = clicked_row as u128;
            let mut current_y: u128 = 0;
            let mut i = offset;
            while i < n
                invariant
                    n == rows.len(),
                    c == clicked_row as u128,
                    rows == repo.graph@,
                    app_state.repo == Some(*repo),
                    selected == app_state.log.list_state.selected,
                    show == app_state.show_diffs,
                    rows_fit(*app_state),
                    offset <= i,
                    current_y <= (i - offset) * 65536,
                    clicked_target(*app_state, clicked_row as int) == click_target(
                        rows,
                        i as int,
                        current_y as int,
                        selected,
                        show,
                        clicked_row as int,
                    ),
                decreases n - i,
            {
                let is_selected = match selected {
                    Some(k) => k == i,
                    None => false,
                };
                proof {
                    lemma_height_fits(*app_state, i);
                }
                assert(is_selected == (selected == Some(i)));
                let h = calculate_row_height(&repo.graph[i], is_selected, show) as u128;
                assert(h == row_height(rows[i as int], selected == Some(i), show));
                assert((selected matches Some(k) && k == i as int) == is_selected);
                assert(c as int == clicked_row as int);
                assert(0 <= i < rows.len());
                assert(click_target(rows, i as int, current_y as int, selected, show, clicked_row as int)
                    == if current_y <= c && c < current_y + h {
                    Some(
                        (
                            i as int,
                            if is_selected && show && c >= current_y + 2 {
                                Some(c - (current_y + 2))
                            } else {
                                None
                            },
                        ),
                    )
                } else {
                    click_target(rows, i + 1, current_y + h, selected, show, clicked_row as int)
                });
                if current_y <= c && c < current_y + h {
                    let file_idx = if is_selected && show && c >= current_y + 2 {
                        Some((c - (current_y + 2)) as usize)
                    } else {
                        None
                    };
                    return Some((i, file_idx));
                }
                assert(current_y + h <= (i + 1 - offset) * 65536) by (nonlinear_arith)
                    requires
                        current_y <= (i - offset) * 65536,
                        h <= 65535,
                ;
                current_y = current_y + h;
                i += 1;
            }
            None
        },
    }
}

/// A mouse position strictly inside the borders of `a`.
pub open spec fn inside_border(col: u16, row: u16, a: Rect) -> bool {
    col > a.x && col < a.x + a.width - 1 && row > a.y && row < a.y + a.height - 1
}

/// A mouse column within the columns of `a`.
pub open spec fn within_columns(col: u16, a: Rect) -> bool {
    a.x <= col && col < a.x + a.width
}

/// A position within `a`.
pub open spec fn within(col: u16, row: u16, a: Rect) -> bool {
    within_columns(col, a) && a.y <= row && row < a.y + a.height
}

/// A click at the cell of the previous click, less than half a second later.
pub open spec fn double_click(s: AppState, m: MouseInput, now: i64) -> bool {
    &&& s.last_click_time matches Some(t) && (if now >= t {
        now - t
    } else {
        0
    }) < DOUBLE_CLICK_MS
    &&& s.last_click_pos == Some((m.column, m.row))
}

/// The action of a click inside the revision table `g`: select the file or
/// the row under it.
pub open spec fn table_click(s: AppState, m: MouseInput, g: Rect) -> Option<Action> {
    match clicked_target(s, m.row - (g.y + 1)) {
        Some((i, Some(f))) => Some(Action::SelectFile(f as usize)),
        Some((i, None)) => Some(Action::SelectIndex(i as usize)),
        None => None,
    }
}

/// The whole terminal as an area.
pub open spec fn screen(size: Size) -> Rect {
    Rect { x: 0, y: 0, width: size.width, height: size.height }
}

/// The action of a key in a text input of the modes `Input`, `BookmarkInput`
/// and `CommitInput`: Esc cancels, Enter finishes, other keys edit.
pub open spec fn text_input_key(s: AppState, key: KeyPress, res: Option<Action>) -> bool {
    match key.key.code {
        KeyCode::Esc => res == Some(Action::CancelMode),
        KeyCode::Enter => if s.mode == AppMode::CommitInput {
            if s.input is Some {
                res matches Some(Action::CommitWorkingCopy(t)) && t@ == input_text(s)
            } else {
                res is None
            }
        } else {
            match (s.selected_row(), s.input) {
                (Some(row), Some(inp)) => if s.mode == AppMode::BookmarkInput {
                    let name = trimmed(joined(inp.text_area.lines_view(), ""@));
                    if name.len() == 0 {
                        res is None
                    } else {
                        res matches Some(Action::SetBookmark(id, n)) && id == row.commit_id && n@
                            == name
                    }
                } else {
                    res matches Some(Action::DescribeRevision(id, t)) && id == row.commit_id && t@
                        == input_text(s)
                },
                _ => res is None,
            }
        },
        _ => res == Some(Action::TextAreaInput(key)),
    }
}

/// The action of a click in the context menu's mode: inside the menu it
/// chooses the item on the clicked line, outside it closes the menu.
pub open spec fn menu_click(s: AppState, m: MouseInput, size: Size) -> Option<Action> {
    match s.context_menu {
        Some(menu) => {
            let r = menu.rect_spec(screen(size));
            if within(m.column, m.row, r) {
                Some(
                    Action::SelectContextMenuAction(
                        (if m.row >= r.y + 1 {
                            m.row - (r.y + 1)
                        } else {
                            0
                        }) as usize,
                    ),
                )
            } else {
                Some(Action::CloseContextMenu)
            }
        },
        None => Some(Action::CloseContextMenu),
    }
}

/// The conflicted file under the file selection, to resolve.
pub open spec fn resolve_selected(s: AppState) -> Option<Action> {
    match s.selected_file() {
        Some(f) => if f.status == FileStatus::Conflicted {
            Some(Action::ResolveConflict(f.path))
        } else {
            None
        },
        None => None,
    }
}

/// A key that resolves the selected file's conflict in the diff panel.
pub open spec fn resolve_key(code: KeyCode) -> bool {
    code == KeyCode::Char('m') || code == KeyCode::Enter
}

/// The action of a key through the key bindings, or else `fallback`.
pub open spec fn bound_or(s: AppState, key: KeyPress, res: Option<Action>, fallback: Option<Action>) -> bool {
    exists|b: Option<Action>|
        #[trigger] key_action(s.keymap, key, s, b) && res == match b {
            Some(a) => Some(a),
            None => fallback,
        }
}

/// The action of a mouse event over the body in the modes without a pop-up,
/// the revision graph panel standing at `g` and the diff panel at `d`.
pub open spec fn body_mouse(s: AppState, m: MouseInput, g: Rect, d: Rect, now: i64) -> Option<Action> {
    match m.kind {
        MouseEventKind::ScrollUp => if s.show_diffs && within_columns(m.column, d) {
            Some(Action::ScrollDiffUp(1))
        } else {
            Some(Action::SelectPrev)
        },
        MouseEventKind::ScrollDown => if s.show_diffs && within_columns(m.column, d) {
            Some(Action::ScrollDiffDown(1))
        } else {
            Some(Action::SelectNext)
        },
        MouseEventKind::Down(MouseButton::Left) => if double_click(s, m, now) {
            Some(Action::ToggleDiffs)
        } else if inside_border(m.column, m.row, g) {
            table_click(s, m, g)
        } else if s.show_diffs && within_columns(m.column, d) {
            Some(Action::FocusDiff)
        } else {
            None
        },
        MouseEventKind::Down(MouseButton::Right) => if inside_border(m.column, m.row, g) {
            match clicked_target(s, m.row - (g.y + 1)) {
                Some((i, _)) => match s.repo {
                    Some(r) => if i < r.graph@.len() {
                        Some(Action::OpenContextMenu(Some(r.graph@[i].commit_id), (m.column, m.row)))
                    } else {
                        None
                    },
                    None => None,
                },
                None => None,
            }
        } else {
            None
        },
        _ => None,
    }
}

/// The action of a mouse event in the diff mode, the revision graph panel
/// standing at `g`.
pub open spec fn diff_mouse(s: AppState, m: MouseInput, g: Rect, now: i64) -> Option<Action> {
    match m.kind {
        MouseEventKind::ScrollUp => Some(Action::ScrollDiffUp(1)),
        MouseEventKind::ScrollDown => Some(Action::ScrollDiffDown(1)),
        MouseEventKind::Down(MouseButton::Left) => if inside_border(m.column, m.row, g) {
            if double_click(s, m, now) {
                Some(Action::ToggleDiffs)
            } else {
                table_click(s, m, g)
            }
        } else {
            None
        },
        _ => None,
    }
}

/// The action a terminal event asks for in the state `s`, for a terminal of
/// `size` whose body shows the revision graph panel at `g` and the diff panel
/// at `d`, at the time `now` (in milliseconds). Key releases ask for nothing.
pub open spec fn event_action(
    ev: InputEvent,
    s: AppState,
    size: Size,
    g: Rect,
    d: Rect,
    now: i64,
    res: Option<Action>,
) -> bool {
    if ev matches InputEvent::Key(k) && k.key.kind == KeyEventKind::Release {
        res is None
    } else {
        match s.mode {
            AppMode::Input | AppMode::BookmarkInput | AppMode::CommitInput => match ev {
                InputEvent::Key(key) => text_input_key(s, key, res),
                _ => res is None,
            },
            AppMode::FilterInput => match ev {
                InputEvent::Key(key) => bound_or(s, key, res, Some(Action::TextAreaInput(key))),
                _ => res is None,
            },
            AppMode::ContextMenu => res == match ev {
                InputEvent::Key(key) => match key.key.code {
                    KeyCode::Esc => Some(Action::CloseContextMenu),
                    KeyCode::Char('j') | KeyCode::Down => Some(Action::SelectContextMenuNext),
                    KeyCode::Char('k') | KeyCode::Up => Some(Action::SelectContextMenuPrev),
                    KeyCode::Enter => match s.context_menu {
                        Some(menu) => Some(Action::SelectContextMenuAction(menu.selected_index)),
                        None => None,
                    },
                    _ => None,
                },
                InputEvent::Mouse(m) => match m.kind {
                    MouseEventKind::Down(MouseButton::Left) => menu_click(s, m, size),
                    _ => None,
                },
                _ => None,
            },
            AppMode::NoRepo => res == match ev {
                InputEvent::Key(key) => match key.key.code {
                    KeyCode::Char('q') | KeyCode::Esc => Some(Action::Quit),
                    KeyCode::Char('i') | KeyCode::Enter => Some(Action::InitRepo),
                    _ => None,
                },
                _ => None,
            },
            AppMode::Loading => res is None,
            AppMode::Help => res == match ev {
                InputEvent::Key(key) => match key.key.code {
                    KeyCode::Esc | KeyCode::Char('q') | KeyCode::Char('?') => Some(
                        Action::ToggleHelp,
                    ),
                    _ => None,
                },
                _ => None,
            },
            AppMode::Diff => match ev {
                InputEvent::Key(key) => if resolve_key(key.key.code) && resolve_selected(s) is Some {
                    res == resolve_selected(s)
                } else {
                    bound_or(s, key, res, None)
                },
                InputEvent::Mouse(m) => res == diff_mouse(s, m, g, now),
                _ => res is None,
            },
            _ => match ev {
                InputEvent::Resize(w, h) => res == Some(Action::Resize(w, h)),
                InputEvent::Key(key) => bound_or(s, key, res, None),
                InputEvent::Mouse(m) => res == body_mouse(s, m, g, d, now),
                _ => res is None,
            },
        }
    }
}

/// The context menu fits the terminal's coordinates wherever it is drawn.
pub open spec fn menu_fits(s: AppState, size: Size) -> bool {
    s.context_menu matches Some(m) ==> {
        &&& crate::app::state::context_menu::longest_label(m.actions@) + 6 <= u16::MAX
        &&& m.actions@.len() + 2 <= u16::MAX
        &&& m.x + m.menu_width(screen(size)) <= u16::MAX
        &&& m.y + m.menu_height(screen(size)) <= u16::MAX
    }
}

/// Whether the selected row's height fits (see `rows_fit`).
fn rows_fit_exec(state: &AppState) -> (res: bool)
    ensures
        res == rows_fit(*state),
{
    if !state.show_diffs {
        return true;
    }
    match (&state.repo, state.log.list_state.selected()) {
        (Some(repo), Some(idx)) => if idx < repo.graph.len() {
            let n = #[verifier::truncate] (repo.graph[idx].changed_files.len() as u16);
            n <= u16::MAX - 2
        } else {
            true
        },
        _ => true,
    }
}

/// Whether the context menu fits (see `menu_fits`).
fn menu_fits_exec(state: &AppState, size: Size) -> (res: bool)
    ensures
        res == menu_fits(*state, size),
{
    match &state.context_menu {
        Some(m) => {
            let longest = crate::app::state::context_menu::longest_label_exec(&m.actions);
            if longest > (u16::MAX - 6) as usize || m.actions.len() > (u16::MAX - 2) as usize {
                return false;
            }
            let wanted_w: u16 = (longest + 6) as u16;
            let w = if wanted_w < size.width {
                wanted_w
            } else {
                size.width
            };
            let wanted_h: u16 = (m.actions.len() + 2) as u16;
            let h = if wanted_h < size.height {
                wanted_h
            } else {
                size.height
            };
            (m.x as u32) + (w as u32) <= u16::MAX as u32 && (m.y as u32) + (h as u32) <= u16::MAX as u32
        },
        None => true,
    }
}

/// The places that a mouse event leads to computing fit the terminal's
/// coordinates: the context menu's rectangle for a left click while the menu
/// is open, the selected row's height for the clicks on the revision table.
/// Keys and the other mouse events compute neither.
pub open spec fn mouse_fits(s: AppState, size: Size, m: MouseInput) -> bool {
    let left = m.kind == MouseEventKind::Down(MouseButton::Left);
    let right = m.kind == MouseEventKind::Down(MouseButton::Right);
    if s.mode == AppMode::ContextMenu {
        left ==> menu_fits(s, size)
    } else if s.mode == AppMode::Input || s.mode == AppMode::BookmarkInput || s.mode
        == AppMode::CommitInput || s.mode == AppMode::FilterInput || s.mode == AppMode::NoRepo
        || s.mode == AppMode::Loading || s.mode == AppMode::Help {
        true
    } else if s.mode == AppMode::Diff {
        left ==> rows_fit(s)
    } else {
        left || right ==> rows_fit(s)
    }
}

/// The event can be mapped in this state (see `mouse_fits`).
pub open spec fn event_in_range(ev: InputEvent, s: AppState, size: Size) -> bool {
    ev matches InputEvent::Mouse(m) ==> mouse_fits(s, size, m)
}

/// Whether a terminal event can be mapped in this state (see `event_in_range`).
pub fn event_fits(state: &AppState, size: Size, event: &InputEvent) -> (res: bool)
    ensures
        res == event_in_range(*event, *state, size),
{
    match event {
        InputEvent::Mouse(m) => {
            let left = m.kind == MouseEventKind::Down(MouseButton::Left);
            let right = m.kind == MouseEventKind::Down(MouseButton::Right);
            match state.mode {
                AppMode::ContextMenu => !left || menu_fits_exec(state, size),
                AppMode::Input | AppMode::BookmarkInput | AppMode::CommitInput
                | AppMode::FilterInput | AppMode::NoRepo | AppMode::Loading | AppMode::Help => true,
                AppMode::Diff => !left || rows_fit_exec(state),
                _ => !(left || right) || rows_fit_exec(state),
            }
        },
        _ => true,
    }
}

/// Whether the context menu can be placed on a terminal of `size` (see
/// `menu_fits`).
pub fn menu_placeable(state: &AppState, size: Size) -> (res: bool)
    ensures
        res == menu_fits(*state, size),
{
    menu_fits_exec(state, size)
}

/// The action a terminal event asks for at the current time (see
/// `event_action`), the panels standing where the layout solver puts them:
/// the body's two panels of a screen split of the terminal (see
/// `screen_split`), the graph on the left and the diff on the right.
pub fn map_event_to_action(event: InputEvent, app_state: &AppState, terminal_size: Size) -> (res: Option<Action>)
    requires
        event_in_range(event, *app_state, terminal_size),
    ensures
        exists|now: i64, main: Seq<Rect>, body: Seq<Rect>|
            #![trigger event_action(event, *app_state, terminal_size, body[0], body[1], now, res), screen_split(screen(terminal_size), main, body)]
            screen_split(screen(terminal_size), main, body) && event_action(
                event,
                *app_state,
                terminal_size,
                body[0],
                body[1],
                now,
                res,
            ),
{
    let now = now_millis();
    map_event_at(event, app_state, terminal_size, now)
}

/// The action a terminal event asks for at the time `now` (see
/// `event_action`), the panels standing where the layout solver puts them:
/// the body's two panels of the screen's layout (see `get_layout` and
/// `screen_split`), the graph on the left and the diff on the right.
pub fn map_event_at(event: InputEvent, app_state: &AppState, terminal_size: Size, now: i64) -> (res: Option<Action>)
    requires
        event_in_range(event, *app_state, terminal_size),
    ensures
        exists|main: Seq<Rect>, body: Seq<Rect>|
            #![trigger event_action(event, *app_state, terminal_size, body[0], body[1], now, res), screen_split(screen(terminal_size), main, body)]
            screen_split(screen(terminal_size), main, body) && event_action(
                event,
                *app_state,
                terminal_size,
                body[0],
                body[1],
                now,
                res,
            ),
{
    let area = Rect { x: 0, y: 0, width: terminal_size.width, height: terminal_size.height };
    let layout = get_layout(area, app_state);
    let g = layout.body[0];
    let d = layout.body[1];
    let res = map_event_in(event, app_state, terminal_size, g, d, now);
    assert(screen_split(screen(terminal_size), layout.main@, layout.body@));
    assert(event_action(event, *app_state, terminal_size, layout.body@[0], layout.body@[1], now, res));
    res
}

/// The action a terminal event asks for at the time `now`, the revision graph
/// panel standing at `graph` and the diff panel at `diff` (see `event_action`).
#[verifier::rlimit(80)]
#[verifier::spinoff_prover]
pub fn map_event_in(
    event: InputEvent,
    app_state: &AppState,
    terminal_size: Size,
    graph: Rect,
    diff: Rect,
    now: i64,
) -> (res: Option<Action>)
    requires
        event_in_range(event, *app_state, terminal_size),
    ensures
        event_action(event, *app_state, terminal_size, graph, diff, now, res),
{
    if let InputEvent::Key(key) = &event {
        if key.key.kind == KeyEventKind::Release {
            return None;
        }
    }
    match app_state.mode {
        AppMode::Input | AppMode::BookmarkInput | AppMode::CommitInput => match event {
            InputEvent::Key(key) => text_input_key_action(app_state, key),
            _ => None,
        },
        AppMode::FilterInput => match event {
            InputEvent::Key(key) => {
                let found = app_state.keymap.get_action(key, app_state);
                let res = match found {
                    Some(a) => Some(a),
                    None => Some(Action::TextAreaInput(key)),
                };
                assert(key_action(app_state.keymap, key, *app_state, found));
                res
            },
            _ => None,
        },
        AppMode::ContextMenu => match event {
            InputEvent::Key(key) => match key.key.code {
                KeyCode::Esc => Some(Action::CloseContextMenu),
                KeyCode::Char('j') | KeyCode::Down => Some(Action::SelectContextMenuNext),
                KeyCode::Char('k') | KeyCode::Up => Some(Action::SelectContextMenuPrev),
                KeyCode::Enter => match &app_state.context_menu {
                    Some(menu) => Some(Action::SelectContextMenuAction(menu.selected_index)),
                    None => None,
                },
                _ => None,
            },
            InputEvent::Mouse(mouse) => match mouse.kind {
                MouseEventKind::Down(MouseButton::Left) => menu_click_action(
                    app_state,
                    mouse,
                    terminal_size,
                ),
                _ => None,
            },
            _ => None,
        },
        AppMode::NoRepo => match event {
            InputEvent::Key(key) => match key.key.code {
                KeyCode::Char('q') | KeyCode::Esc => Some(Action::Quit),
                KeyCode::Char('i') | KeyCode::Enter => Some(Action::InitRepo),
                _ => None,
            },
            _ => None,
        },
        AppMode::Loading => None,
        AppMode::Help => match event {
            InputEvent::Key(key) => match key.key.code {
                KeyCode::Esc | KeyCode::Char('q') | KeyCode::Char('?') => Some(Action::ToggleHelp),
                _ => None,
            },
            _ => None,
        },
        AppMode::Diff => match event {
            InputEvent::Key(key) => {
                let is_resolve_key = match key.key.code {
                    KeyCode::Char('m') | KeyCode::Enter => true,
                    _ => false,
                };
                if is_resolve_key {
                    let resolve = resolve_selected_action(app_state);
                    if resolve.is_some() {
                        return resolve;
                    }
                }
                let found = app_state.keymap.get_action(key, app_state);
                assert(key_action(app_state.keymap, key, *app_state, found));
                found
            },
            InputEvent::Mouse(mouse) => diff_mouse_action(app_state, mouse, graph, now),
            _ => None,
        },
        _ => match event {
            InputEvent::Resize(w, h) => Some(Action::Resize(w, h)),
            InputEvent::Key(key) => {
                let found = app_state.keymap.get_action(key, app_state);
                assert(key_action(app_state.keymap, key, *app_state, found));
                found
            },
            InputEvent::Mouse(mouse) => body_mouse_action(app_state, mouse, graph, diff, now),
            _ => None,
        },
    }
}

/// The action of a key in a text input (see `text_input_key`).
fn text_input_key_action(app_state: &AppState, key: KeyPress) -> (res: Option<Action>)
    ensures
        text_input_key(*app_state, key, res),
{
    match key.key.code {
        KeyCode::Esc => Some(Action::CancelMode),
        KeyCode::Enter => {
            if app_state.mode == AppMode::CommitInput {
                if app_state.input.is_some() {
                    return Some(Action::CommitWorkingCopy(input_text_of(app_state)));
                }
                return None;
            }
            match (&app_state.repo, app_state.log.list_state.selected(), &app_state.input) {
                (Some(repo), Some(idx), Some(input)) => {
                    if idx < repo.graph.len() {
                        let row = &repo.graph[idx];
                        if app_state.mode == AppMode::BookmarkInput {
                            let ls = input.text_area.lines();
                            let joined_lines = join(&ls, "");
                            assert(ls@.map_values(|p: String| p@) =~= input.text_area.lines_view());
                            let name = trim(joined_lines.as_str());
                            if name.as_str().is_empty() {
                                return None;
                            }
                            Some(Action::SetBookmark(row.commit_id.clone(), name))
                        } else {
                            Some(
                                Action::DescribeRevision(
                                    row.commit_id.clone(),
                                    input_text_of(app_state),
                                ),
                            )
                        }
                    } else {
                        None
                    }
                },
                _ => None,
            }
        },
        _ => Some(Action::TextAreaInput(key)),
    }
}

/// The conflicted file under the file selection, to resolve (see `resolve_selected`).
fn resolve_selected_action(app_state: &AppState) -> (res: Option<Action>)
    ensures
        res == resolve_selected(*app_state),
{
    match app_state.get_selected_file() {
        Some(f) => if f.status == FileStatus::Conflicted {
            Some(Action::ResolveConflict(f.path.clone()))
        } else {
            None
        },
        None => None,
    }
}

/// The action of a click in the context menu's mode (see `menu_click`).
fn menu_click_action(app_state: &AppState, mouse: MouseInput, size: Size) -> (res: Option<Action>)
    requires
        menu_fits(*app_state, size),
    ensures
        res == menu_click(*app_state, mouse, size),
{
    match &app_state.context_menu {
        Some(menu) => {
            let area = Rect { x: 0, y: 0, width: size.width, height: size.height };
            let r = menu.calculate_rect(area);
            let col = mouse.column as u32;
            let row = mouse.row as u32;
            if col >= r.x as u32 && col < r.x as u32 + r.width as u32 && row >= r.y as u32 && row
                < r.y as u32 + r.height as u32 {
                let top = r.y as u32 + 1;
                let clicked = if row >= top {
                    row - top
                } else {
                    0
                };
                Some(Action::SelectContextMenuAction(clicked as usize))
            } else {
                Some(Action::CloseContextMenu)
            }
        },
        None => Some(Action::CloseContextMenu),
    }
}

/// Whether the mouse is strictly inside the borders of `a` (see `inside_border`).
fn is_inside_border(col: u16, row: u16, a: Rect) -> (res: bool)
    ensures
        res == inside_border(col, row, a),
{
    let c = col as i32;
    let r = row as i32;
    c > a.x as i32 && c < a.x as i32 + a.width as i32 - 1 && r > a.y as i32 && r < a.y as i32
        + a.height as i32 - 1
}

/// Whether the column lies within the columns of `a` (see `within_columns`).
fn is_within_columns(col: u16, a: Rect) -> (res: bool)
    ensures
        res == within_columns(col, a),
{
    (a.x as u32) <= (col as u32) && (col as u32) < (a.x as u32) + (a.width as u32)
}

/// Whether a click is a double click (see `double_click`).
fn is_double_click(app_state: &AppState, mouse: MouseInput, now: i64) -> (res: bool)
    ensures
        res == double_click(*app_state, mouse, now),
{
    let recent = match app_state.last_click_time {
        Some(t) => {
            let elapsed: i128 = if now >= t {
                (now as i128) - (t as i128)
            } else {
                0
            };
            elapsed < DOUBLE_CLICK_MS as i128
        },
        None => false,
    };
    let same_cell = match app_state.last_click_pos {
        Some((c, r)) => c == mouse.column && r == mouse.row,
        None => false,
    };
    recent && same_cell
}

/// The action of a click inside the revision table (see `table_click`).
fn table_click_action(app_state: &AppState, mouse: MouseInput, g: Rect) -> (res: Option<Action>)
    requires
        rows_fit(*app_state),
        mouse.row > g.y,
    ensures
        res == table_click(*app_state, mouse, g),
{
    let clicked_row = (mouse.row - (g.y + 1)) as usize;
    match resolve_clicked_row(app_state, clicked_row) {
        Some((_, Some(f))) => Some(Action::SelectFile(f)),
        Some((i, None)) => Some(Action::SelectIndex(i)),
        None => None,
    }
}

/// The action of a mouse event in the diff mode (see `diff_mouse`).
fn diff_mouse_action(app_state: &AppState, mouse: MouseInput, g: Rect, now: i64) -> (res: Option<Action>)
    requires
        mouse.kind == MouseEventKind::Down(MouseButton::Left) ==> rows_fit(*app_state),
    ensures
        res == diff_mouse(*app_state, mouse, g, now),
{
    match mouse.kind {
        MouseEventKind::ScrollUp => Some(Action::ScrollDiffUp(1)),
        MouseEventKind::ScrollDown => Some(Action::ScrollDiffDown(1)),
        MouseEventKind::Down(MouseButton::Left) => {
            if is_inside_border(mouse.column, mouse.row, g) {
                if is_double_click(app_state, mouse, now) {
                    Some(Action::ToggleDiffs)
                } else {
                    table_click_action(app_state, mouse, g)
                }
            } else {
                None
            }
        },
        _ => None,
    }
}

/// The action of a mouse event over the body (see `body_mouse`).
fn body_mouse_action(app_state: &AppState, mouse: MouseInput, g: Rect, d: Rect, now: i64) -> (res:
    Option<Action>)
    requires
        mouse.kind == MouseEventKind::Down(MouseButton::Left) || mouse.kind == MouseEventKind::Down(
            MouseButton::Right,
        ) ==> rows_fit(*app_state),
    ensures
        res == body_mouse(*app_state, mouse, g, d, now),
{
    match mouse.kind {
        MouseEventKind::ScrollUp => if app_state.show_diffs && is_within_columns(mouse.column, d) {
            Some(Action::ScrollDiffUp(1))
        } else {
            Some(Action::SelectPrev)
        },
        MouseEventKind::ScrollDown => if app_state.show_diffs && is_within_columns(mouse.column, d) {
            Some(Action::ScrollDiffDown(1))
        } else {
            Some(Action::SelectNext)
        },
        MouseEventKind::Down(MouseButton::Left) => if is_double_click(app_state, mouse, now) {
            Some(Action::ToggleDiffs)
        } else if is_inside_border(mouse.column, mouse.row, g) {
            table_click_action(app_state, mouse, g)
        } else if app_state.show_diffs && is_within_columns(mouse.column, d) {
            Some(Action::FocusDiff)
        } else {
            None
        },
        MouseEventKind::Down(MouseButton::Right) => if is_inside_border(mouse.column, mouse.row, g) {
            let clicked_row = (mouse.row - (g.y + 1)) as usize;
            match resolve_clicked_row(app_state, clicked_row) {
                Some((i, _)) => match &app_state.repo {
                    Some(repo) => if i < repo.graph.len() {
                        Some(
                            Action::OpenContextMenu(
                                Some(repo.graph[i].commit_id.clone()),
                                (mouse.column, mouse.row),
                            ),
                        )
                    } else {
                        None
                    },
                    None => None,
                },
                None => None,
            }
        } else {
            None
        },
        _ => None,
    }
}

} // verus!
