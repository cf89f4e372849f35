//! Modes and pop-ups: the command palette, help, themes, the context menu,
//! the evolution and operation logs, and typing into text inputs.
use crate::app::action::{Action, UpdateResult};
use crate::app::command_palette::{search_commands, search_result};
use crate::app::features::navigation::views;
use crate::app::keys::{KeyCode, KeyEventKind};
use crate::app::state::input::edited_lines;
use crate::app::state::{
    AppMode, AppState, CommandPaletteState, ContextMenuState, EvologState, OperationLogState,
    ThemeSelectionState,
};
use crate::domain::models::CommitId;
use crate::text::{lines, owned, pop_char, push_char, text_lines};
use crate::theme::PaletteType;
use vstd::prelude::*;

verus! {

broadcast use vstd::string::group_string_axioms;

/// The labels and actions of a menu, the labels as text.
pub open spec fn menu_items(items: Seq<(String, Action)>) -> Seq<(Seq<char>, Action)> {
    items.map_values(|p: (String, Action)| (p.0@, p.1))
}

/// The items of the menu opened on a revision.
pub open spec fn revision_menu(id: CommitId) -> Seq<(Seq<char>, Action)> {
    seq![
        ("Edit"@, Action::EditRevision(Some(id))),
        ("New Child"@, Action::NewRevision(Some(id))),
        ("Abandon"@, Action::AbandonRevision(Some(id))),
        ("Duplicate"@, Action::DuplicateRevision),
        ("Squash"@, Action::EnterSquashMode),
        ("Evolog"@, Action::EvologRevision(Some(id))),
    ]
}

/// A scroll position moved down by `n`, but not past the last of `len` lines.
pub open spec fn scrolled_down(scroll: u16, n: u16, len: nat) -> u16 {
    let max_scroll = (if len == 0 {
        0
    } else {
        len - 1
    }) as u16;
    let s = if scroll + n <= u16::MAX {
        (scroll + n) as u16
    } else {
        u16::MAX
    };
    if s < max_scroll {
        s
    } else {
        max_scroll
    }
}

/// A scroll position moved up by `n`, but not above the first line.
pub open spec fn scrolled_up(scroll: u16, n: u16) -> u16 {
    if scroll >= n {
        (scroll - n) as u16
    } else {
        0
    }
}

/// The position after `i` in a list of `len` entries, wrapping to the first.
pub open spec fn wrap_next(i: usize, len: nat) -> usize {
    ((i + 1) % (len as int)) as usize
}

/// The position before `i` in a list of `len` entries, wrapping to the last.
pub open spec fn wrap_prev(i: usize, len: nat) -> usize {
    if i == 0 {
        (len - 1) as usize
    } else {
        (i - 1) as usize
    }
}

/// The palette is open with the query `q`, its matches and the first highlighted.
pub open spec fn palette_at(cp: Option<CommandPaletteState>, q: Seq<char>) -> bool {
    cp matches Some(p) && p.query@ == q && p.matches@ == search_result(q) && p.selected_index == 0
}

/// What typing the key `k` does when no text input is open.
pub open spec fn palette_typed(old: AppState, new: AppState, k: KeyCode) -> bool {
    match (old.mode, old.command_palette) {
        (AppMode::CommandPalette, Some(cp)) => match k {
            KeyCode::Char(c) => new == AppState { command_palette: new.command_palette, ..old }
                && palette_at(new.command_palette, cp.query@.push(c)),
            KeyCode::Backspace => new == AppState { command_palette: new.command_palette, ..old }
                && palette_at(
                new.command_palette,
                if cp.query@.len() > 0 {
                    cp.query@.drop_last()
                } else {
                    cp.query@
                },
            ),
            _ => new == old,
        },
        _ => new == old,
    }
}

/// What an action does to the state, for the actions of modes and pop-ups.
pub open spec fn ui_step(old: AppState, action: Action, new: AppState, res: UpdateResult) -> bool {
    match action {
        Action::EnterCommandMode => {
            &&& res == UpdateResult::Handled(None)
            &&& new == AppState {
                mode: AppMode::CommandPalette,
                command_palette: new.command_palette,
                ..old
            }
            &&& palette_at(new.command_palette, Seq::empty())
        },
        Action::CancelMode => res == UpdateResult::Handled(None) && new == AppState {
            mode: AppMode::Normal,
            input: None,
            command_palette: None,
            last_error: None,
            context_menu: None,
            evolog_state: None,
            operation_log_state: None,
            theme_selection: None,
            rebase_sources: new.rebase_sources,
            ..old
        } && new.rebase_sources@.len() == 0,
        Action::ToggleHelp => res == UpdateResult::Handled(None) && new == AppState {
            mode: if old.mode == AppMode::Help {
                AppMode::Normal
            } else {
                AppMode::Help
            },
            ..old
        },
        Action::EnterThemeSelection => {
            &&& res == UpdateResult::Handled(None)
            &&& new == AppState {
                mode: AppMode::ThemeSelection,
                theme_selection: new.theme_selection,
                ..old
            }
            &&& new.theme_selection matches Some(t) && t.selected_index == 0 && t.themes@
                == seq![PaletteType::CatppuccinMocha]
        },
        Action::SwitchTheme(p) => res == UpdateResult::Handled(None) && new == AppState {
            palette_type: p,
            mode: AppMode::Normal,
            ..old
        },
        Action::TextAreaInput(key) => res == UpdateResult::Handled(None) && match old.input {
            Some(inp) => if key.key.kind == KeyEventKind::Release {
                new == old
            } else {
                &&& new == AppState { input: new.input, ..old }
                &&& new.input matches Some(ni) && ni.text_area.lines_view() == edited_lines(
                    inp.text_area,
                    key.key,
                )
            },
            None => palette_typed(old, new, key.key.code),
        },
        Action::CommandPaletteNext => res == UpdateResult::Handled(None) && new == match old.command_palette {
            Some(cp) => if cp.matches@.len() > 0 {
                AppState {
                    command_palette: Some(
                        CommandPaletteState {
                            selected_index: wrap_next(cp.selected_index, cp.matches@.len()),
                            ..cp
                        },
                    ),
                    ..old
                }
            } else {
                old
            },
            None => old,
        },
        Action::CommandPalettePrev => res == UpdateResult::Handled(None) && new == match old.command_palette {
            Some(cp) => if cp.matches@.len() > 0 {
                AppState {
                    command_palette: Some(
                        CommandPaletteState {
                            selected_index: wrap_prev(cp.selected_index, cp.matches@.len()),
                            ..cp
                        },
                    ),
                    ..old
                }
            } else {
                old
            },
            None => old,
        },
        Action::SelectThemeNext => res == UpdateResult::Handled(None) && new == match old.theme_selection {
            Some(t) => AppState {
                theme_selection: Some(
                    ThemeSelectionState {
                        selected_index: wrap_next(t.selected_index, t.themes@.len()),
                        ..t
                    },
                ),
                ..old
            },
            None => old,
        },
        Action::SelectThemePrev => res == UpdateResult::Handled(None) && new == match old.theme_selection {
            Some(t) => AppState {
                theme_selection: Some(
                    ThemeSelectionState {
                        selected_index: wrap_prev(t.selected_index, t.themes@.len()),
                        ..t
                    },
                ),
                ..old
            },
            None => old,
        },
        Action::CommandPaletteSelect => if old.mode == AppMode::ThemeSelection {
            res == UpdateResult::Handled(None) && new == match old.theme_selection {
                Some(t) => if t.selected_index < t.themes@.len() {
                    AppState {
                        palette_type: t.themes@[t.selected_index as int],
                        mode: AppMode::Normal,
                        theme_selection: None,
                        ..old
                    }
                } else {
                    old
                },
                None => old,
            }
        } else {
            res is NotHandled && new == old
        },
        Action::OpenEvolog(content) => {
            &&& res == UpdateResult::Handled(None)
            &&& new == AppState { mode: AppMode::Evolog, evolog_state: new.evolog_state, ..old }
            &&& new.evolog_state matches Some(e) && views(e.content@) == text_lines(content@)
                && e.scroll == 0
        },
        Action::CloseEvolog => res == UpdateResult::Handled(None) && new == AppState {
            mode: AppMode::Normal,
            evolog_state: None,
            ..old
        },
        Action::ScrollEvologUp(n) => res == UpdateResult::Handled(None) && new == match old.evolog_state {
            Some(e) => AppState {
                evolog_state: Some(EvologState { scroll: scrolled_up(e.scroll, n), ..e }),
                ..old
            },
            None => old,
        },
        Action::ScrollEvologDown(n) => res == UpdateResult::Handled(None) && new == match old.evolog_state {
            Some(e) => AppState {
                evolog_state: Some(
                    EvologState { scroll: scrolled_down(e.scroll, n, e.content@.len()), ..e },
                ),
                ..old
            },
            None => old,
        },
        Action::OpenOperationLog(content) => {
            &&& res == UpdateResult::Handled(None)
            &&& new == AppState { mode: AppMode::OperationLog, operation_log_state: new.operation_log_state, ..old }
            &&& new.operation_log_state matches Some(e) && views(e.content@) == text_lines(content@)
                && e.scroll == 0
        },
        Action::CloseOperationLog => res == UpdateResult::Handled(None) && new == AppState {
            mode: AppMode::Normal,
            operation_log_state: None,
            ..old
        },
        Action::ScrollOperationLogUp(n) => res == UpdateResult::Handled(None) && new == match old.operation_log_state {
            Some(e) => AppState {
                operation_log_state: Some(
                    OperationLogState { scroll: scrolled_up(e.scroll, n), ..e },
                ),
                ..old
            },
            None => old,
        },
        Action::ScrollOperationLogDown(n) => res == UpdateResult::Handled(None) && new == match old.operation_log_state {
            Some(e) => AppState {
                operation_log_state: Some(
                    OperationLogState {
                        scroll: scrolled_down(e.scroll, n, e.content@.len()),
                        ..e
                    },
                ),
                ..old
            },
            None => old,
        },
        Action::SelectContextMenuNext => res == UpdateResult::Handled(None) && new == match old.context_menu {
            Some(m) => AppState {
                context_menu: Some(
                    ContextMenuState {
                        selected_index: wrap_next(m.selected_index, m.actions@.len()),
                        ..m
                    },
                ),
                ..old
            },
            None => old,
        },
        Action::SelectContextMenuPrev => res == UpdateResult::Handled(None) && new == match old.context_menu {
            Some(m) => AppState {
                context_menu: Some(
                    ContextMenuState {
                        selected_index: wrap_prev(m.selected_index, m.actions@.len()),
                        ..m
                    },
                ),
                ..old
            },
            None => old,
        },
        Action::CloseContextMenu => res == UpdateResult::Handled(None) && new == AppState {
            context_menu: None,
            mode: AppMode::Normal,
            ..old
        },
        Action::OpenContextMenu(id, pos) => res == UpdateResult::Handled(None) && match id {
            Some(id) => {
                &&& new == AppState {
                    context_menu: new.context_menu,
                    mode: AppMode::ContextMenu,
                    ..old
                }
                &&& new.context_menu matches Some(m) && m.commit_id == id && m.x == pos.0 && m.y
                    == pos.1 && m.selected_index == 0 && menu_items(m.actions@) == revision_menu(id)
            },
            None => new == old,
        },
        _ => res is NotHandled && new == old,
    }
}

/// Applies the actions of modes and pop-ups (see `ui_step`).
#[verifier::rlimit(80)]
#[verifier::spinoff_prover]
pub fn update(state: &mut AppState, action: &Action) -> (res: UpdateResult)
    requires
        old(state).wf(),
    ensures
        ui_step(*old(state), *action, *final(state), res),
{
    match action {
        Action::EnterCommandMode => {
            state.mode = AppMode::CommandPalette;
            let query = String::new();
            let matches = search_commands(query.as_str());
            state.command_palette = Some(CommandPaletteState { query, matches, selected_index: 0 });
            UpdateResult::Handled(None)
        },
        Action::CancelMode => {
            state.mode = AppMode::Normal;
            state.input = None;
            state.command_palette = None;
            state.last_error = None;
            state.context_menu = None;
            state.evolog_state = None;
            state.operation_log_state = None;
            state.theme_selection = None;
            state.rebase_sources.clear();
            UpdateResult::Handled(None)
        },
        Action::ToggleHelp => {
            state.mode = if state.mode == AppMode::Help {
                AppMode::Normal
            } else {
                AppMode::Help
            };
            UpdateResult::Handled(None)
        },
        Action::EnterThemeSelection => {
            state.mode = AppMode::ThemeSelection;
            state.theme_selection = Some(ThemeSelectionState::default());
            UpdateResult::Handled(None)
        },
        Action::SwitchTheme(palette) => {
            state.palette_type = *palette;
            state.mode = AppMode::Normal;
            UpdateResult::Handled(None)
        },
        Action::TextAreaInput(key) => {
            if let Some(input) = &mut state.input {
                if key.key.kind != KeyEventKind::Release {
                    input.text_area.input(key.key);
                }
            } else if state.mode == AppMode::CommandPalette {
                type_into_palette(state, key.key.code);
            }
            UpdateResult::Handled(None)
        },
        Action::CommandPaletteNext => {
            if let Some(cp) = &mut state.command_palette {
                if cp.matches.len() > 0 {
                    cp.selected_index = (cp.selected_index + 1) % cp.matches.len();
                }
            }
            UpdateResult::Handled(None)
        },
        Action::CommandPalettePrev => {
            if let Some(cp) = &mut state.command_palette {
                if cp.matches.len() > 0 {
                    if cp.selected_index == 0 {
                        cp.selected_index = cp.matches.len() - 1;
                    } else {
                        cp.selected_index -= 1;
                    }
                }
            }
            UpdateResult::Handled(None)
        },
        Action::SelectThemeNext => {
            assert(state.theme_selection matches Some(t) ==> t.selected_index < t.themes@.len());
            if let Some(ts) = &mut state.theme_selection {
                let len = ts.themes.len();
                let i = ts.selected_index;
                assert(i < len);
                ts.selected_index = (i + 1) % len;
            }
            UpdateResult::Handled(None)
        },
        Action::SelectThemePrev => {
            if let Some(ts) = &mut state.theme_selection {
                if ts.selected_index == 0 {
                    ts.selected_index = ts.themes.len() - 1;
                } else {
                    ts.selected_index -= 1;
                }
            }
            UpdateResult::Handled(None)
        },
        Action::CommandPaletteSelect => {
            if state.mode == AppMode::ThemeSelection {
                let chosen = match &state.theme_selection {
                    Some(ts) => if ts.selected_index < ts.themes.len() {
                        Some(ts.themes[ts.selected_index])
                    } else {
                        None
                    },
                    None => None,
                };
                if let Some(palette) = chosen {
                    state.palette_type = palette;
                    state.mode = AppMode::Normal;
                    state.theme_selection = None;
                }
                return UpdateResult::Handled(None);
            }
            UpdateResult::NotHandled
        },
        Action::OpenEvolog(content) => {
            state.mode = AppMode::Evolog;
            state.evolog_state = Some(EvologState { content: lines(content.as_str()), scroll: 0 });
            UpdateResult::Handled(None)
        },
        Action::CloseEvolog => {
            state.mode = AppMode::Normal;
            state.evolog_state = None;
            UpdateResult::Handled(None)
        },
        Action::ScrollEvologUp(n) => {
            if let Some(ev) = &mut state.evolog_state {
                ev.scroll = ev.scroll.saturating_sub(*n);
            }
            UpdateResult::Handled(None)
        },
        Action::ScrollEvologDown(n) => {
            if let Some(ev) = &mut state.evolog_state {
                ev.scroll = scroll_down(ev.scroll, *n, ev.content.len());
            }
            UpdateResult::Handled(None)
        },
        Action::OpenOperationLog(content) => {
            state.mode = AppMode::OperationLog;
            state.operation_log_state = Some(
                OperationLogState { content: lines(content.as_str()), scroll: 0 },
            );
            UpdateResult::Handled(None)
        },
        Action::CloseOperationLog => {
            state.mode = AppMode::Normal;
            state.operation_log_state = None;
            UpdateResult::Handled(None)
        },
        Action::ScrollOperationLogUp(n) => {
            if let Some(op) = &mut state.operation_log_state {
                op.scroll = op.scroll.saturating_sub(*n);
            }
            UpdateResult::Handled(None)
        },
        Action::ScrollOperationLogDown(n) => {
            if let Some(op) = &mut state.operation_log_state {
                op.scroll = scroll_down(op.scroll, *n, op.content.len());
            }
            UpdateResult::Handled(None)
        },
        Action::SelectContextMenuNext => {
            assert(state.context_menu matches Some(m) ==> m.selected_index < m.actions@.len());
            if let Some(menu) = &mut state.context_menu {
                let len = menu.actions.len();
                let i = menu.selected_index;
                assert(i < len);
                menu.selected_index = (i + 1) % len;
            }
            UpdateResult::Handled(None)
        },
        Action::SelectContextMenuPrev => {
            if let Some(menu) = &mut state.context_menu {
                if menu.selected_index == 0 {
                    menu.selected_index = menu.actions.len() - 1;
                } else {
                    menu.selected_index -= 1;
                }
            }
            UpdateResult::Handled(None)
        },
        Action::CloseContextMenu => {
            state.context_menu = None;
            state.mode = AppMode::Normal;
            UpdateResult::Handled(None)
        },
        Action::OpenContextMenu(commit_id_opt, pos) => {
            if let Some(commit_id) = commit_id_opt {
                let actions = revision_menu_items(commit_id);
                state.context_menu = Some(
                    ContextMenuState {
                        commit_id: commit_id.clone(),
                        x: pos.0,
                        y: pos.1,
                        selected_index: 0,
                        actions,
                    },
                );
                state.mode = AppMode::ContextMenu;
            }
            UpdateResult::Handled(None)
        },
        _ => UpdateResult::NotHandled,
    }
}

/// A scroll position moved down (see `scrolled_down`).
fn scroll_down(scroll: u16, n: u16, len: usize) -> (res: u16)
    ensures
        res == scrolled_down(scroll, n, len as nat),
{
    let max_scroll = #[verifier::truncate] ((if len == 0 {
        0
    } else {
        len - 1
    }) as u16);
    let s = scroll.saturating_add(n);
    if s < max_scroll {
        s
    } else {
        max_scroll
    }
}

/// The items of the menu opened on a revision (see `revision_menu`).
fn revision_menu_items(id: &CommitId) -> (res: Vec<(String, Action)>)
    ensures
        menu_items(res@) == revision_menu(*id),
{
    let v = vec![
        (owned("Edit"), Action::EditRevision(Some(id.clone()))),
        (owned("New Child"), Action::NewRevision(Some(id.clone()))),
        (owned("Abandon"), Action::AbandonRevision(Some(id.clone()))),
        (owned("Duplicate"), Action::DuplicateRevision),
        (owned("Squash"), Action::EnterSquashMode),
        (owned("Evolog"), Action::EvologRevision(Some(id.clone()))),
    ];
    assert(menu_items(v@) =~= revision_menu(*id));
    v
}

/// Types the key `k` into the open command palette (see `palette_typed`).
fn type_into_palette(state: &mut AppState, k: KeyCode)
    requires
        old(state).input is None,
        old(state).mode == AppMode::CommandPalette,
    ensures
        palette_typed(*old(state), *final(state), k),
{
    if let Some(cp) = &mut state.command_palette {
        match k {
            KeyCode::Char(c) => {
                push_char(&mut cp.query, c);
                cp.matches = search_commands(cp.query.as_str());
                cp.selected_index = 0;
            },
            KeyCode::Backspace => {
                let _ = pop_char(&mut cp.query);
                cp.matches = search_commands(cp.query.as_str());
                cp.selected_index = 0;
            },
            _ => {},
        }
    }
}

} // verus!
