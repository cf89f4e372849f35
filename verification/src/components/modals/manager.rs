//! Which pop-ups are in front of the body.
use crate::app::state::{AppMode, AppState};
use vstd::prelude::*;

verus! {

/// A pop-up is in front of the body (and the body is dimmed): the mode is
/// not one of the body's own (normal, diff, no repository, loading), or an
/// error is shown.
pub open spec fn modal_active(s: AppState) -> bool {
    !(s.mode == AppMode::Normal || s.mode == AppMode::Diff || s.mode == AppMode::NoRepo || s.mode
        == AppMode::Loading) || s.last_error is Some
}

/// Whether a pop-up is in front of the body (see `modal_active`).
pub fn is_modal_active(state: &AppState) -> (res: bool)
    ensures
        res == modal_active(*state),
{
    !matches!(state.mode, AppMode::Normal | AppMode::Diff | AppMode::NoRepo | AppMode::Loading)
        || state.last_error.is_some()
}

/// The title of the text input pop-up: the describe and bookmark inputs have
/// one; the other inputs are drawn elsewhere or not at all.
pub open spec fn input_title_of(mode: AppMode) -> Option<Seq<char>> {
    if mode == AppMode::BookmarkInput {
        Some(" SET BOOKMARK "@)
    } else if mode == AppMode::Input {
        Some(" DESCRIBE REVISION "@)
    } else {
        None
    }
}

/// The title of the text input pop-up (see `input_title_of`).
pub fn input_title(mode: AppMode) -> (res: Option<&'static str>)
    ensures
        match res {
            Some(t) => input_title_of(mode) == Some(t@),
            None => input_title_of(mode) is None,
        },
{
    match mode {
        AppMode::BookmarkInput => Some(" SET BOOKMARK "),
        AppMode::Input => Some(" DESCRIBE REVISION "),
        _ => None,
    }
}

/// The pop-up drawn for the mode, under the error pop-up when an error is
/// shown.
#[derive(Clone, Copy, Debug, PartialEq, Eq, Structural)]
pub enum ModalKind {
    /// No pop-up of the mode.
    Nothing,
    Help,
    /// The text input (its title is `input_title`).
    TextInput,
    RebaseSelect,
    Filter,
    ContextMenu,
    CommandPalette,
    ThemeSelection,
    Evolog,
    OperationLog,
}

/// The pop-up of the state's mode: help; the describe or bookmark input
/// while an input is open; the rebase destination
/// prompt; the filter while an input is open; and the menu, palette, theme
/// picker, evolution log and operation log while their state is there.
pub open spec fn modal_of(s: AppState) -> ModalKind {
    match s.mode {
        AppMode::Help => ModalKind::Help,
        AppMode::Input | AppMode::BookmarkInput => if s.input is Some {
            ModalKind::TextInput
        } else {
            ModalKind::Nothing
        },
        AppMode::RebaseSelect => ModalKind::RebaseSelect,
        AppMode::FilterInput => if s.input is Some {
            ModalKind::Filter
        } else {
            ModalKind::Nothing
        },
        AppMode::ContextMenu => if s.context_menu is Some {
            ModalKind::ContextMenu
        } else {
            ModalKind::Nothing
        },
        AppMode::CommandPalette => if s.command_palette is Some {
            ModalKind::CommandPalette
        } else {
            ModalKind::Nothing
        },
        AppMode::ThemeSelection => if s.theme_selection is Some {
            ModalKind::ThemeSelection
        } else {
            ModalKind::Nothing
        },
        AppMode::Evolog => if s.evolog_state is Some {
            ModalKind::Evolog
        } else {
            ModalKind::Nothing
        },
        AppMode::OperationLog => if s.operation_log_state is Some {
            ModalKind::OperationLog
        } else {
            ModalKind::Nothing
        },
        _ => ModalKind::Nothing,
    }
}

/// The pop-up of the state's mode (see `modal_of`).
pub fn modal_for(state: &AppState) -> (res: ModalKind)
    ensures
        res == modal_of(*state),
{
    match state.mode {
        AppMode::Help => ModalKind::Help,
        AppMode::Input | AppMode::BookmarkInput => if state.input.is_some() {
            ModalKind::TextInput
        } else {
            ModalKind::Nothing
        },
        AppMode::RebaseSelect => ModalKind::RebaseSelect,
        AppMode::FilterInput => if state.input.is_some() {
            ModalKind::Filter
        } else {
            ModalKind::Nothing
        },
        AppMode::ContextMenu => if state.context_menu.is_some() {
            ModalKind::ContextMenu
        } else {
            ModalKind::Nothing
        },
        AppMode::CommandPalette => if state.command_palette.is_some() {
            ModalKind::CommandPalette
        } else {
            ModalKind::Nothing
        },
        AppMode::ThemeSelection => if state.theme_selection.is_some() {
            ModalKind::ThemeSelection
        } else {
            ModalKind::Nothing
        },
        AppMode::Evolog => if state.evolog_state.is_some() {
            ModalKind::Evolog
        } else {
            ModalKind::Nothing
        },
        AppMode::OperationLog => if state.operation_log_state.is_some() {
            ModalKind::OperationLog
        } else {
            ModalKind::Nothing
        },
        _ => ModalKind::Nothing,
    }
}

} // verus!
