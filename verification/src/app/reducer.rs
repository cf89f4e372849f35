//! The state machine: applies one action to the state and says which
//! command, if any, the runtime should perform next.
use crate::app::action::{Action, UpdateResult};
use crate::app::command::Command;
use crate::app::command_palette::{command_table, describes, get_commands};
use crate::app::features::filter::{self, filter_step, quick_filter, LOAD_LIMIT};
use crate::app::features::navigation::{
    self, navigation_panics, navigation_step, selection_handled, views, with_selected,
};
use crate::app::features::ui::{self, ui_step};
use crate::app::features::vcs::actions::{self as vcs, find_working_copy, vcs_step, working_copy_row};
use crate::app::laws::law_update_keeps_invariant;
use crate::app::recovery::{get_suggestions, suggestions_for};
use crate::app::state::{AppMode, AppState, ErrorSeverity, ErrorState, HeaderState, LogState};
use crate::clock::{now_millis, CLOCK_LIMIT_MS};
use crate::domain::graph_layout::{calculate_graph_layout, graph_laid_out};
use crate::domain::models::{CommitId, GraphRow, RepoStatus};
use crate::text::{
    concat3, contains, decimal, join, joined, lowercase, owned, seq_contains, to_lowercase,
    usize_text,
};
use vstd::prelude::*;

verus! {

broadcast use vstd::string::group_string_axioms;

/// How long a status message stays, in milliseconds.
pub const STATUS_CLEAR_MS: i64 = 5000;

/// How long a hunk jump stays highlighted, in milliseconds.
pub const HUNK_HIGHLIGHT_MS: i64 = 200;

/// How close to the end of the loaded graph the selection may come before
/// more of it is loaded.
pub const LOAD_MORE_MARGIN: usize = 20;

// ----- Which feature handles an action -----

/// The actions of navigation.
pub open spec fn navigation_handles(a: Action) -> bool {
    ||| a is SelectNext
    ||| a is SelectPrev
    ||| a is SelectIndex
    ||| a is SelectFile
    ||| a is SelectFileByPath
    ||| a is SelectNextFile
    ||| a is SelectPrevFile
    ||| a is ScrollDiffUp
    ||| a is ScrollDiffDown
    ||| a is NextHunk
    ||| a is PrevHunk
    ||| a is ToggleDiffs
    ||| a is FocusDiff
    ||| a is FocusGraph
}

/// The version-control intents.
pub open spec fn vcs_handles(a: Action) -> bool {
    ||| a is SnapshotWorkingCopy
    ||| a is EditRevision
    ||| a is SquashRevision
    ||| a is EnterSquashMode
    ||| a is NewRevision
    ||| a is DescribeRevisionIntent
    ||| a is DescribeRevision
    ||| a is CommitWorkingCopyIntent
    ||| a is CommitWorkingCopy
    ||| a is AbandonRevision
    ||| a is RevertRevision
    ||| a is Absorb
    ||| a is DuplicateRevision
    ||| a is ParallelizeRevision
    ||| a is RebaseRevisionIntent
    ||| a is RebaseRevision
    ||| a is SetBookmarkIntent
    ||| a is SetBookmark
    ||| a is DeleteBookmarkIntent
    ||| a is DeleteBookmark
    ||| a is SplitRevision
    ||| a is Undo
    ||| a is Redo
    ||| a is Fetch
    ||| a is PushIntent
    ||| a is Push
    ||| a is ResolveConflict
    ||| a is InitRepo
}

/// The actions of filtering.
pub open spec fn filter_handles(a: Action) -> bool {
    ||| a is EnterFilterMode
    ||| a is ApplyFilter
    ||| a is ClearFilter
    ||| a is FilterNext
    ||| a is FilterPrev
    ||| a is ToggleFilterSource
    ||| quick_filter(a) is Some
}

/// The actions of modes and pop-ups (choosing from the palette only while
/// choosing a theme).
pub open spec fn ui_handles(s: AppState, a: Action) -> bool {
    ||| a is EnterCommandMode
    ||| a is CancelMode
    ||| a is ToggleHelp
    ||| a is EnterThemeSelection
    ||| a is SwitchTheme
    ||| a is TextAreaInput
    ||| a is CommandPaletteNext
    ||| a is CommandPalettePrev
    ||| a is SelectThemeNext
    ||| a is SelectThemePrev
    ||| (a is CommandPaletteSelect && s.mode == AppMode::ThemeSelection)
    ||| a is OpenEvolog
    ||| a is CloseEvolog
    ||| a is ScrollEvologUp
    ||| a is ScrollEvologDown
    ||| a is OpenOperationLog
    ||| a is CloseOperationLog
    ||| a is ScrollOperationLogUp
    ||| a is ScrollOperationLogDown
    ||| a is SelectContextMenuNext
    ||| a is SelectContextMenuPrev
    ||| a is CloseContextMenu
    ||| a is OpenContextMenu
}

// ----- The lifecycle of the repository data -----

/// The mode after waiting ends: the focused panel's, or the welcome screen
/// when no repository is loaded.
pub open spec fn mode_after_wait(s: AppState) -> AppMode {
    if s.mode == AppMode::Loading {
        if s.repo is Some {
            s.panel_mode()
        } else {
            AppMode::NoRepo
        }
    } else {
        s.mode
    }
}

/// The running tasks without those that name "Syncing".
pub open spec fn without_syncing(tasks: Seq<Seq<char>>) -> Seq<Seq<char>>
    decreases tasks.len(),
{
    if tasks.len() == 0 {
        Seq::empty()
    } else if seq_contains(tasks.last(), "Syncing"@) {
        without_syncing(tasks.drop_last())
    } else {
        without_syncing(tasks.drop_last()).push(tasks.last())
    }
}

/// Some row of `graph` has the commit `id`.
pub open spec fn has_commit(graph: Seq<GraphRow>, id: Seq<char>) -> bool {
    exists|k: int| 0 <= k < graph.len() && #[trigger] graph[k].commit_id@ == id
}

/// Some parent of a row of `graph` is not in `graph`: there is more history.
pub open spec fn missing_parent(graph: Seq<GraphRow>) -> bool {
    exists|r: int, p: int|
        0 <= r < graph.len() && 0 <= p < graph[r].parents@.len() && !has_commit(
            graph,
            #[trigger] graph[r].parents@[p]@,
        )
}

/// The rows of `batch` whose commit is not in `existing`, in order.
pub open spec fn fresh_rows(existing: Seq<GraphRow>, batch: Seq<GraphRow>) -> Seq<GraphRow>
    decreases batch.len(),
{
    if batch.len() == 0 {
        Seq::empty()
    } else if has_commit(existing, batch.last().commit_id@) {
        fresh_rows(existing, batch.drop_last())
    } else {
        fresh_rows(existing, batch.drop_last()).push(batch.last())
    }
}

/// The first row of `graph` with the commit `id`.
pub open spec fn row_of(graph: Seq<GraphRow>, id: Seq<char>) -> Option<int> {
    if has_commit(graph, id) {
        Some(
            choose|k: int|
                0 <= k < graph.len() && graph[k].commit_id@ == id && forall|j: int|
                    0 <= j < k ==> #[trigger] graph[j].commit_id@ != id,
        )
    } else {
        None
    }
}

/// The header texts for the repository `repo` with `marked` revisions marked;
/// without a working copy its texts stay as in `old_h`.
pub open spec fn header_after(h: HeaderState, old_h: HeaderState, repo: RepoStatus, marked: nat) -> bool {
    &&& h.repo_text@ == " "@ + repo.workspace_id@ + " "@
    &&& match working_copy_row(repo.graph@) {
        Some(row) => h.wc_text@ == " "@ + row.commit_id@ + " "@ && h.branch_text@ == joined(
            views(row.bookmarks@),
            ", "@,
        ),
        None => h.wc_text == old_h.wc_text && h.branch_text == old_h.branch_text,
    }
    &&& h.stats_text@ == " "@ + decimal(repo.graph@.len()) + " revs | "@ + decimal(marked)
        + " selected "@
    &&& h.op_text == old_h.op_text
}

/// `new` is `old` with the header derived from the loaded repository.
pub open spec fn derived(old: AppState, new: AppState) -> bool {
    match old.repo {
        Some(r) => {
            &&& new == AppState { header_state: new.header_state, ..old }
            &&& header_after(new.header_state, old.header_state, r, old.log.selected_ids@.len())
        },
        None => new == old,
    }
}

/// `new` is `old` with `r` as the repository, its graph laid out, no more
/// loading, and the background-sync tasks done.
pub open spec fn installed(old: AppState, r: RepoStatus, new: AppState) -> bool {
    &&& new == AppState {
        workspace_id: r.workspace_id,
        repo: new.repo,
        is_loading_more: false,
        has_more: true,
        active_tasks: new.active_tasks,
        ..old
    }
    &&& new.repo matches Some(nr) && nr == RepoStatus { graph: nr.graph, ..r } && graph_laid_out(
        r.graph@,
        nr.graph@,
    )
    &&& views(new.active_tasks@) == without_syncing(views(old.active_tasks@))
}

/// `m` with the mode that loading a repository leaves from `old`: the
/// focused panel's when `old` waited or had no repository.
pub open spec fn with_load_mode(old: AppState, m: AppState) -> AppState {
    AppState {
        mode: if old.mode == AppMode::Loading || old.mode == AppMode::NoRepo {
            old.panel_mode()
        } else {
            old.mode
        },
        ..m
    }
}

/// `s` with the first row selected when nothing is.
pub open spec fn select_first_if_none(s: AppState) -> AppState {
    if s.log.list_state.selected is None {
        with_selected(s, Some(0))
    } else {
        s
    }
}

/// Asking for more of the graph: nothing while loading or at the end;
/// otherwise, when a parent is missing, loading starts, and when none is,
/// the end is reached.
pub open spec fn load_more_step(s: AppState, new: AppState, res: Option<Command>) -> bool {
    if s.is_loading_more || !s.has_more {
        new == s && res is None
    } else {
        match s.repo {
            Some(r) => if missing_parent(r.graph@) {
                new == AppState { is_loading_more: true, ..s } && res == Some(
                    Command::LoadRepo(None, LOAD_LIMIT, s.revset),
                )
            } else {
                new == AppState { has_more: false, ..s } && res is None
            },
            None => new == s && res is None,
        }
    }
}

/// The error shown for the message `m` at `now`, with its hints.
pub open spec fn error_shown(e: Option<ErrorState>, m: String, now: i64) -> bool {
    e matches Some(e) && e.message == m && views(e.suggestions@) == suggestions_for(lowercase(m@))
        && e.timestamp_ms == now && e.severity == ErrorSeverity::Error
}

/// A lowercase error message that is about a revset.
pub open spec fn revset_error_text(l: Seq<char>) -> bool {
    ||| seq_contains(l, "revset"@)
    ||| seq_contains(l, "parse error"@)
    ||| (seq_contains(l, "error"@) && seq_contains(l, "function"@))
    ||| (seq_contains(l, "invalid"@) && seq_contains(l, "expression"@))
}

/// The frames of the busy spinner.
pub open spec fn spinner_frames() -> Seq<Seq<char>> {
    seq!["⠋"@, "⠙"@, "⠹"@, "⠸"@, "⠼"@, "⠴"@, "⠦"@, "⠧"@, "⠇"@, "⠏"@]
}

/// The state after the clock ticked at `now`: one more frame, an expired
/// status message and hunk highlight gone, and the spinner on the frame's
/// picture.
pub open spec fn ticked(old: AppState, now: i64, new: AppState) -> bool {
    let frame = if old.frame_count == u64::MAX {
        0u64
    } else {
        (old.frame_count + 1) as u64
    };
    let expired = old.status_clear_time matches Some(t) && now >= t;
    &&& new == AppState {
        frame_count: frame,
        status_message: if expired {
            None
        } else {
            old.status_message
        },
        status_clear_time: if expired {
            None
        } else {
            old.status_clear_time
        },
        hunk_highlight_time: if old.hunk_highlight_time matches Some(h) && now - h >= HUNK_HIGHLIGHT_MS {
            None
        } else {
            old.hunk_highlight_time
        },
        spinner: new.spinner,
        ..old
    }
    &&& new.spinner@ == spinner_frames()[((frame / 5) % 10) as int]
}

/// The selection is within `LOAD_MORE_MARGIN` rows of the end of the loaded
/// graph, and more can be loaded.
pub open spec fn near_end(s: AppState) -> bool {
    s.repo matches Some(r) && s.log.list_state.selected matches Some(i) && i + LOAD_MORE_MARGIN
        >= r.graph@.len() && !s.is_loading_more && s.has_more
}

/// The selection after a background reload into `m`: the previously
/// selected commit stays selected where it is now; if it is gone, the first
/// row is selected with no diff shown; with nothing selected before, the
/// first row is selected unless a row index was kept.
pub open spec fn reloaded_selection(old: AppState, m: AppState, new: AppState, res: Option<Command>) -> bool {
    match old.selected_row() {
        Some(prev) => match m.repo {
            Some(nr) => match row_of(nr.graph@, prev.commit_id@) {
                Some(k) => selection_handled(with_selected(m, Some(k as usize)), new, res),
                None => selection_handled(
                    AppState {
                        log: LogState { current_diff: None, ..with_selected(m, Some(0)).log },
                        ..with_selected(m, Some(0))
                    },
                    new,
                    res,
                ),
            },
            None => false,
        },
        None => if m.log.list_state.selected is None {
            selection_handled(with_selected(m, Some(0)), new, res)
        } else {
            new == m && res is None
        },
    }
}

/// `new` is `old` with the fresh rows of `b` appended to the graph of `rp`
/// and the graph laid out again, and loading over.
pub open spec fn batch_merged(old: AppState, rp: RepoStatus, b: RepoStatus, new: AppState) -> bool {
    &&& new == AppState { is_loading_more: false, repo: new.repo, ..old }
    &&& new.repo matches Some(nr) && nr == RepoStatus { graph: nr.graph, ..rp } && graph_laid_out(
        rp.graph@ + fresh_rows(rp.graph@, b.graph@),
        nr.graph@,
    )
}

/// A tick would overflow when checking the selection against the end of
/// the graph.
pub open spec fn tick_overflows(s: AppState) -> bool {
    &&& s.repo is Some
    &&& s.log.list_state.selected matches Some(i) && i + LOAD_MORE_MARGIN > usize::MAX
}

/// A freshly loaded repository: it is installed, the mode leaves waiting,
/// the header is derived, the first row is selected when none was, and the
/// selected row's diff is shown.
pub open spec fn repo_loaded_step(old: AppState, r: RepoStatus, new: AppState, res: Option<Command>) -> bool {
    exists|m1: AppState, m2: AppState|
        #[trigger] installed(old, r, m1) && #[trigger] derived(with_load_mode(old, m1), m2)
            && selection_handled(select_first_if_none(m2), new, res)
}

/// A repository reloaded in the background: it is installed, the header is
/// derived, and the selection follows the previously selected commit (see
/// `reloaded_selection`).
pub open spec fn repo_reloaded_step(old: AppState, r: RepoStatus, new: AppState, res: Option<Command>) -> bool {
    exists|m1: AppState, m2: AppState|
        #[trigger] installed(old, r, m1) && #[trigger] derived(m1, m2) && reloaded_selection(
            old,
            m2,
            new,
            res,
        )
}

/// What the state machine itself does with an action that no feature handles.
pub open spec fn main_step(old: AppState, action: Action, now: i64, new: AppState, res: Option<Command>) -> bool {
    match action {
        Action::Quit => new == AppState { should_quit: true, ..old } && res is None,
        Action::LoadMoreGraph => load_more_step(old, new, res),
        Action::RepoLoaded(r) => repo_loaded_step(old, *r, new, res),
        Action::RepoReloadedBackground(r) => repo_reloaded_step(old, *r, new, res),
        Action::GraphBatchLoaded(b) => res is None && match old.repo {
            Some(rp) => exists|m1: AppState|
                #[trigger] derived(m1, new) && batch_merged(old, rp, *b, m1),
            None => new == AppState { is_loading_more: false, ..old },
        },
        Action::DiffLoaded(id, diff) => {
            let shown = old.selected_row() matches Some(row) && row.commit_id@ == id@;
            &&& res is None
            &&& new == AppState {
                log: LogState {
                    diff_cache: new.log.diff_cache,
                    current_diff: if shown {
                        Some(diff)
                    } else {
                        old.log.current_diff
                    },
                    is_loading_diff: if shown {
                        false
                    } else {
                        old.log.is_loading_diff
                    },
                    ..old.log
                },
                ..old
            }
            &&& forall|k: Seq<char>|
                #[trigger] new.log.diff_cache.lookup(k) == if k == id@ {
                    Some(diff@)
                } else {
                    old.log.diff_cache.lookup(k)
                }
        },
        Action::OperationStarted(msg) => {
            &&& res is None
            &&& new == AppState {
                active_tasks: new.active_tasks,
                status_message: Some(msg),
                status_clear_time: Some((now + STATUS_CLEAR_MS) as i64),
                mode: AppMode::Loading,
                ..old
            }
            &&& new.active_tasks@ == old.active_tasks@.push(msg)
        },
        Action::OperationCompleted(result) => {
            let tasks = if old.active_tasks@.len() > 0 {
                old.active_tasks@.remove(0)
            } else {
                old.active_tasks@
            };
            &&& new.active_tasks@ == tasks
            &&& match result {
                Ok(msg) => {
                    &&& new == AppState {
                        active_tasks: new.active_tasks,
                        mode: mode_after_wait(old),
                        status_message: Some(msg),
                        status_clear_time: Some((now + STATUS_CLEAR_MS) as i64),
                        log: LogState { diff_cache: new.log.diff_cache, ..old.log },
                        ..old
                    }
                    &&& forall|k: Seq<char>| #[trigger] new.log.diff_cache.lookup(k) is None
                    &&& res == Some(Command::LoadRepo(None, LOAD_LIMIT, old.revset))
                },
                Err(err) => {
                    &&& new == AppState {
                        active_tasks: new.active_tasks,
                        mode: mode_after_wait(old),
                        last_error: new.last_error,
                        ..old
                    }
                    &&& error_shown(new.last_error, err, now)
                    &&& res == if old.repo is Some {
                        Some(Command::LoadRepo(None, LOAD_LIMIT, old.revset))
                    } else {
                        None
                    }
                },
            }
        },
        Action::ErrorOccurred(err) => {
            let revset_error = old.revset is Some && revset_error_text(lowercase(err@));
            &&& new == AppState {
                revset: if revset_error {
                    None
                } else {
                    old.revset
                },
                last_error: new.last_error,
                mode: mode_after_wait(old),
                ..old
            }
            &&& error_shown(new.last_error, err, now)
            &&& res == if revset_error {
                Some(Command::LoadRepo(None, LOAD_LIMIT, None))
            } else {
                None
            }
        },
        Action::ExternalChangeDetected => {
            &&& new == AppState { active_tasks: new.active_tasks, ..old }
            &&& views(new.active_tasks@) == views(old.active_tasks@).push(
                "Syncing in background..."@,
            )
            &&& res == Some(Command::LoadRepoBackground(LOAD_LIMIT, old.revset))
        },
        Action::Tick => exists|m: AppState|
            #[trigger] ticked(old, now, m) && if near_end(m) {
                load_more_step(m, new, res)
            } else {
                new == m && res is None
            },
        _ => new == old && res is None,
    }
}

/// What an action does when it chooses no other action to run.
pub open spec fn base_step(old: AppState, a: Action, now: i64, new: AppState, res: Option<Command>) -> bool {
    if navigation_handles(a) {
        navigation_step(old, a, now, new, UpdateResult::Handled(res))
    } else if vcs_handles(a) {
        vcs_step(old, a, now, new, UpdateResult::Handled(res))
    } else if filter_handles(a) {
        filter_step(old, a, new, UpdateResult::Handled(res))
    } else if ui_handles(old, a) {
        ui_step(old, a, new, UpdateResult::Handled(res))
    } else {
        main_step(old, a, now, new, res)
    }
}

/// The command the palette runs on `a`, outside theme selection: the
/// highlighted match, when it names a command.
pub open spec fn palette_choice(s: AppState, a: Action) -> Option<int> {
    if a is CommandPaletteSelect && s.mode != AppMode::ThemeSelection {
        match s.command_palette {
            Some(cp) => if cp.selected_index < cp.matches@.len() && cp.matches@[cp.selected_index as int]
                < command_table().len() {
                Some(cp.matches@[cp.selected_index as int] as int)
            } else {
                None
            },
            None => None,
        }
    } else {
        None
    }
}

/// `s` with the palette closed.
pub open spec fn palette_closed(s: AppState) -> AppState {
    AppState { mode: AppMode::Normal, command_palette: None, ..s }
}

/// The action the context menu runs on `a`: that of the chosen item.
pub open spec fn menu_choice(s: AppState, a: Action) -> Option<Action> {
    match (a, s.context_menu) {
        (Action::SelectContextMenuAction(i), Some(m)) => if i < m.actions@.len() {
            Some(m.actions@[i as int].1)
        } else {
            None
        },
        _ => None,
    }
}

/// `s` with the context menu closed.
pub open spec fn menu_closed(s: AppState) -> AppState {
    AppState { context_menu: None, mode: AppMode::Normal, ..s }
}

/// An action, with a choice from the palette run as the chosen command.
pub open spec fn palette_step(old: AppState, a: Action, now: i64, new: AppState, res: Option<Command>) -> bool {
    match palette_choice(old, a) {
        Some(k) => base_step(palette_closed(old), command_table()[k].2, now, new, res),
        None => base_step(old, a, now, new, res),
    }
}

/// What one action does to the state and which command it asks for, at the
/// time `now` (in milliseconds since the Unix epoch). A choice from the
/// context menu closes it and runs the item's action; a choice from the
/// command palette closes it and runs the command's action.
pub open spec fn reduce_step(old: AppState, a: Action, now: i64, new: AppState, res: Option<Command>) -> bool {
    match menu_choice(old, a) {
        Some(b) => palette_step(menu_closed(old), b, now, new, res),
        None => palette_step(old, a, now, new, res),
    }
}

/// The action overflows an integer when run without another action.
pub open spec fn base_panics(s: AppState, a: Action) -> bool {
    ||| navigation_panics(s, a)
    ||| (a is Tick && tick_overflows(s))
}

/// The action overflows an integer, counting what a choice from the
/// palette runs.
pub open spec fn palette_panics(s: AppState, a: Action) -> bool {
    match palette_choice(s, a) {
        Some(k) => base_panics(palette_closed(s), command_table()[k].2),
        None => base_panics(s, a),
    }
}

/// The action overflows an integer, counting what a choice from a menu or
/// the palette runs.
pub open spec fn reduce_panics(s: AppState, a: Action) -> bool {
    match menu_choice(s, a) {
        Some(b) => palette_panics(menu_closed(s), b),
        None => palette_panics(s, a),
    }
}

// ----- Execution -----

/// Whether stepping the selection by `delta` overflows (see `step_panics`).
fn step_overflows(state: &AppState, delta: isize) -> (res: bool)
    ensures
        res == crate::app::features::navigation::step_panics(*state, delta as int),
{
    let len = match &state.repo {
        Some(r) => r.graph.len(),
        None => 0,
    };
    if len == 0 {
        return false;
    }
    if len > isize::MAX as usize {
        return true;
    }
    match state.log.list_state.selected() {
        Some(i) => {
            let w: i128 = (i as isize) as i128 + delta as i128;
            !(isize::MIN as i128 <= w && w <= isize::MAX as i128)
        },
        None => false,
    }
}

/// Whether an action that runs no other overflows (see `base_panics`).
fn base_overflows(state: &AppState, action: &Action) -> (res: bool)
    ensures
        res == base_panics(*state, *action),
{
    match action {
        Action::SelectNext => step_overflows(state, 1),
        Action::SelectPrev => step_overflows(state, -1),
        Action::SelectNextFile => {
            let has_row = match (&state.repo, state.log.list_state.selected()) {
                (Some(repo), Some(idx)) => idx < repo.graph.len(),
                _ => false,
            };
            has_row && state.log.selected_file_index == Some(usize::MAX)
        },
        Action::Tick => match (&state.repo, state.log.list_state.selected()) {
            (Some(_), Some(i)) => i > usize::MAX - LOAD_MORE_MARGIN,
            _ => false,
        },
        _ => false,
    }
}

/// Closing the palette or the menu does not change whether an action overflows.
proof fn lemma_closing_keeps_overflow(s: AppState, a: Action)
    ensures
        base_panics(palette_closed(s), a) == base_panics(s, a),
        base_panics(menu_closed(s), a) == base_panics(s, a),
        palette_panics(menu_closed(s), a) == palette_panics(
            AppState { mode: AppMode::Normal, context_menu: None, ..s },
            a,
        ),
{
}

/// The command the palette would run on a choice, in the mode `mode` (see
/// `palette_choice`).
fn palette_target(state: &AppState, mode: AppMode) -> (res: Option<usize>)
    ensures
        res == match palette_choice(AppState { mode, ..*state }, Action::CommandPaletteSelect) {
            Some(k) => Some(k as usize),
            None => None,
        },
{
    if mode == AppMode::ThemeSelection {
        return None;
    }
    match &state.command_palette {
        Some(cp) => if cp.selected_index < cp.matches.len() {
            let k = cp.matches[cp.selected_index];
            if k < 19 {
                Some(k)
            } else {
                None
            }
        } else {
            None
        },
        None => None,
    }
}

/// Whether the action overflows an integer (see `reduce_panics`); an action
/// for which this holds is not applied.
pub fn would_overflow(state: &AppState, action: &Action) -> (res: bool)
    ensures
        res == reduce_panics(*state, *action),
{
    let commands = get_commands();
    let inner: Option<&Action> = match (action, &state.context_menu) {
        (Action::SelectContextMenuAction(i), Some(m)) => if *i < m.actions.len() {
            Some(&m.actions[*i].1)
        } else {
            None
        },
        _ => None,
    };
    match inner {
        Some(b) => {
            proof {
                lemma_closing_keeps_overflow(*state, *b);
            }
            if matches!(b, Action::CommandPaletteSelect) {
                match palette_target(state, AppMode::Normal) {
                    Some(k) => {
                        proof {
                            assert(describes(commands@[k as int], k as int));
                            lemma_closing_keeps_overflow(menu_closed(*state), commands@[k as int].action);
                            lemma_closing_keeps_overflow(*state, commands@[k as int].action);
                        }
                        base_overflows(state, &commands[k].action)
                    },
                    None => base_overflows(state, b),
                }
            } else {
                base_overflows(state, b)
            }
        },
        None => {
            if matches!(action, Action::CommandPaletteSelect) {
                match palette_target(state, state.mode) {
                    Some(k) => {
                        proof {
                            assert(describes(commands@[k as int], k as int));
                            lemma_closing_keeps_overflow(*state, commands@[k as int].action);
                        }
                        base_overflows(state, &commands[k].action)
                    },
                    None => base_overflows(state, action),
                }
            } else {
                base_overflows(state, action)
            }
        },
    }
}

/// Applies an action at the current time (see `reduce_step`).
pub fn update(state: &mut AppState, action: Action) -> (res: Option<Command>)
    requires
        old(state).wf(),
        !reduce_panics(*old(state), action),
    ensures
        exists|now: i64|
            -CLOCK_LIMIT_MS <= now <= CLOCK_LIMIT_MS && #[trigger] reduce_step(
                *old(state),
                action,
                now,
                *final(state),
                res,
            ),
        final(state).wf(),
{
    let now = now_millis();
    update_at(state, action, now)
}

/// Applies an action at the time `now` (see `reduce_step`).
pub fn update_at(state: &mut AppState, action: Action, now: i64) -> (res: Option<Command>)
    requires
        old(state).wf(),
        !reduce_panics(*old(state), action),
        -CLOCK_LIMIT_MS <= now <= CLOCK_LIMIT_MS,
    ensures
        reduce_step(*old(state), action, now, *final(state), res),
        final(state).wf(),
{
    let ghost s0 = *state;
    let ghost a0 = action;
    let res = update_chosen(state, action, now);
    proof {
        law_update_keeps_invariant(s0, a0, now, *state, res);
    }
    res
}

/// Applies an action, running the item chosen from the context menu (see
/// `reduce_step`).
fn update_chosen(state: &mut AppState, action: Action, now: i64) -> (res: Option<Command>)
    requires
        old(state).wf(),
        !reduce_panics(*old(state), action),
        -CLOCK_LIMIT_MS <= now <= CLOCK_LIMIT_MS,
    ensures
        reduce_step(*old(state), action, now, *final(state), res),
{
    let chosen = match (&action, &state.context_menu) {
        (Action::SelectContextMenuAction(idx), Some(menu)) => *idx < menu.actions.len(),
        _ => false,
    };
    if chosen {
        let idx = match &action {
            Action::SelectContextMenuAction(idx) => *idx,
            _ => 0,
        };
        let menu = state.context_menu.take();
        state.mode = AppMode::Normal;
        match menu {
            Some(mut m) => {
                let (_, inner) = m.actions.remove(idx);
                update_palette(state, inner, now)
            },
            None => None,
        }
    } else {
        update_palette(state, action, now)
    }
}

/// Applies an action, running the command chosen from the palette (see
/// `palette_step`).
fn update_palette(state: &mut AppState, action: Action, now: i64) -> (res: Option<Command>)
    requires
        old(state).wf(),
        !palette_panics(*old(state), action),
        -CLOCK_LIMIT_MS <= now <= CLOCK_LIMIT_MS,
    ensures
        palette_step(*old(state), action, now, *final(state), res),
{
    let choice = if matches!(action, Action::CommandPaletteSelect) && state.mode != AppMode::ThemeSelection {
        match &state.command_palette {
            Some(cp) => if cp.selected_index < cp.matches.len() {
                let k = cp.matches[cp.selected_index];
                if k < get_commands().len() {
                    Some(k)
                } else {
                    None
                }
            } else {
                None
            },
            None => None,
        }
    } else {
        None
    };
    match choice {
        Some(k) => {
            let mut commands = get_commands();
            proof {
                assert(describes(commands@[k as int], k as int));
            }
            let def = commands.remove(k);
            state.mode = AppMode::Normal;
            state.command_palette = None;
            update_base(state, def.action, now)
        },
        None => update_base(state, action, now),
    }
}

/// Applies an action that runs no other (see `base_step`).
fn update_base(state: &mut AppState, action: Action, now: i64) -> (res: Option<Command>)
    requires
        old(state).wf(),
        !base_panics(*old(state), action),
        -CLOCK_LIMIT_MS <= now <= CLOCK_LIMIT_MS,
    ensures
        base_step(*old(state), action, now, *final(state), res),
{
    match navigation::update(state, &action, now) {
        UpdateResult::Handled(cmd) => return cmd,
        UpdateResult::NotHandled => {},
    }
    match vcs::update(state, &action, now) {
        UpdateResult::Handled(cmd) => return cmd,
        UpdateResult::NotHandled => {},
    }
    match filter::update(state, &action) {
        UpdateResult::Handled(cmd) => return cmd,
        UpdateResult::NotHandled => {},
    }
    match ui::update(state, &action) {
        UpdateResult::Handled(cmd) => return cmd,
        UpdateResult::NotHandled => {},
    }
    lifecycle(state, action, now)
}

/// Applies an action that no feature handles (see `main_step`).
#[verifier::rlimit(80)]
#[verifier::spinoff_prover]
fn lifecycle(state: &mut AppState, action: Action, now: i64) -> (res: Option<Command>)
    requires
        !base_panics(*old(state), action),
        -CLOCK_LIMIT_MS <= now <= CLOCK_LIMIT_MS,
    ensures
        main_step(*old(state), action, now, *final(state), res),
{
    match action {
        Action::Quit => {
            state.should_quit = true;
            None
        },
        Action::LoadMoreGraph => load_more(state),
        Action::RepoLoaded(repo_status) => repo_loaded(state, repo_status),
        Action::RepoReloadedBackground(repo_status) => repo_reloaded(state, repo_status),
        Action::GraphBatchLoaded(repo_status) => {
            graph_batch_loaded(state, *repo_status);
            None
        },
        Action::DiffLoaded(commit_id, diff) => {
            diff_loaded(state, commit_id, diff);
            None
        },
        Action::OperationStarted(msg) => {
            operation_started(state, msg, now);
            None
        },
        Action::OperationCompleted(result) => operation_completed(state, result, now),
        Action::ErrorOccurred(err) => error_occurred(state, err, now),
        Action::ExternalChangeDetected => external_change(state),
        Action::Tick => tick(state, now),
        _ => None,
    }
}

/// An operation started: it is shown as running and the interface waits.
fn operation_started(state: &mut AppState, msg: String, now: i64)
    requires
        -CLOCK_LIMIT_MS <= now <= CLOCK_LIMIT_MS,
    ensures
        main_step(*old(state), Action::OperationStarted(msg), now, *final(state), None),
{
    state.active_tasks.push(msg.clone());
    state.status_message = Some(msg);
    state.status_clear_time = Some(now + STATUS_CLEAR_MS);
    state.mode = AppMode::Loading;
}

/// The repository changed outside: a background sync is shown and asked for.
fn external_change(state: &mut AppState) -> (res: Option<Command>)
    ensures
        main_step(*old(state), Action::ExternalChangeDetected, 0, *final(state), res),
{
    let ghost before = views(state.active_tasks@);
    state.active_tasks.push(owned("Syncing in background..."));
    assert(views(state.active_tasks@) =~= before.push("Syncing in background..."@));
    Some(Command::LoadRepoBackground(LOAD_LIMIT, state.revset.clone()))
}

/// Asks for more of the graph (see `load_more_step`).
fn load_more(state: &mut AppState) -> (res: Option<Command>)
    ensures
        load_more_step(*old(state), *final(state), res),
{
    if state.is_loading_more || !state.has_more {
        return None;
    }
    let missing = match &state.repo {
        Some(repo) => Some(has_missing_parent(&repo.graph)),
        None => None,
    };
    match missing {
        Some(true) => {
            state.is_loading_more = true;
            Some(Command::LoadRepo(None, LOAD_LIMIT, state.revset.clone()))
        },
        Some(false) => {
            state.has_more = false;
            None
        },
        None => None,
    }
}

/// Whether the commit `id` is in `graph` (see `has_commit`).
fn contains_commit(graph: &Vec<GraphRow>, id: &CommitId) -> (res: bool)
    ensures
        res == has_commit(graph@, id@),
{
    let n = graph.len();
    for k in 0..n
        invariant
            n == graph@.len(),
            forall|j: int| 0 <= j < k ==> #[trigger] graph@[j].commit_id@ != id@,
    {
        if graph[k].commit_id.same_as(id) {
            return true;
        }
    }
    false
}

/// Whether some parent of a row is not in the graph (see `missing_parent`).
fn has_missing_parent(graph: &Vec<GraphRow>) -> (res: bool)
    ensures
        res == missing_parent(graph@),
{
    let n = graph.len();
    for r in 0..n
        invariant
            n == graph@.len(),
            forall|rr: int, p: int|
                0 <= rr < r && 0 <= p < graph@[rr].parents@.len() ==> has_commit(
                    graph@,
                    #[trigger] graph@[rr].parents@[p]@,
                ),
    {
        let m = graph[r].parents.len();
        for p in 0..m
            invariant
                n == graph@.len(),
                r < n,
                m == graph@[r as int].parents@.len(),
                forall|rr: int, pp: int|
                    0 <= rr < r && 0 <= pp < graph@[rr].parents@.len() ==> has_commit(
                        graph@,
                        #[trigger] graph@[rr].parents@[pp]@,
                    ),
                forall|pp: int|
                    0 <= pp < p ==> has_commit(graph@, #[trigger] graph@[r as int].parents@[pp]@),
        {
            if !contains_commit(graph, &graph[r].parents[p]) {
                return true;
            }
        }
    }
    false
}

/// Drops the background-sync tasks (see `without_syncing`).
fn drop_syncing_tasks(tasks: &mut Vec<String>)
    ensures
        views(final(tasks)@) == without_syncing(views(old(tasks)@)),
{
    let ghost tv = views(tasks@);
    let mut kept: Vec<String> = Vec::new();
    let n = tasks.len();
    for i in 0..n
        invariant
            n == tasks@.len(),
            tv == views(tasks@),
            views(kept@) == without_syncing(tv.take(i as int)),
    {
        proof {
            assert(tv.take(i + 1).drop_last() =~= tv.take(i as int));
        }
        if !contains(tasks[i].as_str(), "Syncing") {
            kept.push(tasks[i].clone());
        }
        assert(views(kept@) =~= without_syncing(tv.take(i + 1)));
    }
    assert(tv.take(n as int) =~= tv);
    *tasks = kept;
}

/// Installs a loaded repository (see `installed`).
fn install_repo(state: &mut AppState, repo_status: RepoStatus)
    ensures
        installed(*old(state), repo_status, *final(state)),
{
    state.workspace_id = repo_status.workspace_id.clone();
    let mut r = repo_status;
    calculate_graph_layout(&mut r.graph);
    state.repo = Some(r);
    state.is_loading_more = false;
    state.has_more = true;
    drop_syncing_tasks(&mut state.active_tasks);
}

/// A freshly loaded repository (see `main_step`).
fn repo_loaded(state: &mut AppState, repo_status: Box<RepoStatus>) -> (res: Option<Command>)
    ensures
        repo_loaded_step(*old(state), *repo_status, *final(state), res),
{
    let ghost s0 = *state;
    let ghost rs = *repo_status;
    install_repo(state, *repo_status);
    let ghost m1 = *state;
    if state.mode == AppMode::Loading || state.mode == AppMode::NoRepo {
        state.mode = state.panel_mode_exec();
    }
    assert(*state == with_load_mode(s0, m1));
    update_repository_derived_state(state);
    let ghost m2 = *state;
    if state.log.list_state.selected().is_none() {
        state.log.list_state.select(Some(0));
    }
    assert(*state == select_first_if_none(m2));
    let res = navigation::handle_selection(state);
    assert(installed(s0, rs, m1) && derived(with_load_mode(s0, m1), m2) && selection_handled(
        select_first_if_none(m2),
        *state,
        res,
    ));
    assert(exists|a: AppState, b: AppState|
        #[trigger] installed(s0, rs, a) && #[trigger] derived(with_load_mode(s0, a), b)
            && selection_handled(select_first_if_none(b), *state, res));
    res
}

/// A repository reloaded in the background, keeping the selected commit
/// selected (see `main_step`).
fn repo_reloaded(state: &mut AppState, repo_status: Box<RepoStatus>) -> (res: Option<Command>)
    ensures
        repo_reloaded_step(*old(state), *repo_status, *final(state), res),
{
    let ghost s0 = *state;
    let ghost rs = *repo_status;
    let prev = match (&state.repo, state.log.list_state.selected()) {
        (Some(repo), Some(idx)) => if idx < repo.graph.len() {
            Some(repo.graph[idx].commit_id.clone())
        } else {
            None
        },
        _ => None,
    };
    install_repo(state, *repo_status);
    let ghost m1 = *state;
    update_repository_derived_state(state);
    let ghost m2 = *state;
    let res = match prev {
        Some(id) => {
            let found = match &state.repo {
                Some(repo) => position_of_commit(&repo.graph, &id),
                None => None,
            };
            match found {
                Some(new_idx) => {
                    state.log.list_state.select(Some(new_idx));
                    navigation::handle_selection(state)
                },
                None => {
                    state.log.list_state.select(Some(0));
                    state.log.current_diff = None;
                    navigation::handle_selection(state)
                },
            }
        },
        None => {
            if state.log.list_state.selected().is_none() {
                state.log.list_state.select(Some(0));
                navigation::handle_selection(state)
            } else {
                None
            }
        },
    };
    assert(reloaded_selection(s0, m2, *state, res));
    assert(installed(s0, rs, m1) && derived(m1, m2));
    assert(exists|a: AppState, b: AppState|
        #[trigger] installed(s0, rs, a) && #[trigger] derived(a, b) && reloaded_selection(
            s0,
            b,
            *state,
            res,
        ));
    res
}

/// The first row of `graph` with the commit `id` (see `row_of`).
fn position_of_commit(graph: &Vec<GraphRow>, id: &CommitId) -> (res: Option<usize>)
    ensures
        match res {
            Some(k) => row_of(graph@, id@) == Some(k as int),
            None => row_of(graph@, id@) is None,
        },
{
    let n = graph.len();
    for i in 0..n
        invariant
            n == graph@.len(),
            forall|j: int| 0 <= j < i ==> #[trigger] graph@[j].commit_id@ != id@,
    {
        if graph[i].commit_id.same_as(id) {
            proof {
                let p = i as int;
                assert(graph@[p].commit_id@ == id@);
                let c = choose|k: int|
                    0 <= k < graph@.len() && graph@[k].commit_id@ == id@ && forall|j: int|
                        0 <= j < k ==> #[trigger] graph@[j].commit_id@ != id@;
                assert(c == p) by {
                    if c < p {
                        assert(graph@[c].commit_id@ != id@);
                    } else if c > p {
                        assert(graph@[p].commit_id@ != id@);
                    }
                }
            }
            return Some(i);
        }
    }
    None
}

/// Adds a batch of graph rows: those with a commit not yet loaded, in order,
/// then lays the graph out again (see `main_step`).
fn graph_batch_loaded(state: &mut AppState, batch: RepoStatus)
    ensures
        main_step(
            *old(state),
            Action::GraphBatchLoaded(Box::new(batch)),
            0,
            *final(state),
            None,
        ),
{
    state.is_loading_more = false;
    let taken = state.repo.take();
    match taken {
        Some(mut repo) => {
            let ghost rp = repo;
            let ghost before = repo.graph@;
            let count = repo.graph.len();
            let mut rest = batch.graph;
            let ghost all = rest@;
            let n = rest.len();
            let mut i: usize = 0;
            while i < n
                invariant
                    n == all.len(),
                    i <= n,
                    rest@ == all.subrange(i as int, n as int),
                    repo.graph@ == before + fresh_rows(before, all.take(i as int)),
                    repo == (RepoStatus { graph: repo.graph, ..rp }),
                    count == before.len(),
                decreases n - i,
            {
                let row = rest.remove(0);
                proof {
                    assert(all.take(i + 1).drop_last() =~= all.take(i as int));
                    assert(row == all[i as int]);
                }
                assert(repo.graph@.take(count as int) =~= before);
                let known = contains_commit_in(&repo.graph, count, &row.commit_id);
                if !known {
                    repo.graph.push(row);
                }
                i += 1;
                assert(repo.graph@ =~= before + fresh_rows(before, all.take(i as int)));
                assert(rest@ =~= all.subrange(i as int, n as int));
            }
            assert(all.take(n as int) =~= all);
            calculate_graph_layout(&mut repo.graph);
            state.repo = Some(repo);
            let ghost m1 = *state;
            update_repository_derived_state(state);
            proof {
                assert(derived(m1, *state));
            }
        },
        None => {},
    }
}

/// Whether the commit `id` is among the first `count` rows of `graph`.
fn contains_commit_in(graph: &Vec<GraphRow>, count: usize, id: &CommitId) -> (res: bool)
    requires
        count <= graph@.len(),
    ensures
        res == has_commit(graph@.take(count as int), id@),
{
    let ghost g = graph@.take(count as int);
    for k in 0..count
        invariant
            count <= graph@.len(),
            g == graph@.take(count as int),
            forall|j: int| 0 <= j < k ==> #[trigger] g[j].commit_id@ != id@,
    {
        if graph[k].commit_id.same_as(id) {
            assert(g[k as int].commit_id@ == id@);
            return true;
        }
    }
    false
}

/// A diff arrived: it is cached, and shown when its commit is selected.
fn diff_loaded(state: &mut AppState, commit_id: CommitId, diff: String)
    ensures
        main_step(
            *old(state),
            Action::DiffLoaded(commit_id, diff),
            0,
            *final(state),
            None,
        ),
{
    state.log.diff_cache.insert(commit_id.clone(), diff.clone());
    let shown = match (&state.repo, state.log.list_state.selected()) {
        (Some(repo), Some(idx)) => idx < repo.graph.len() && repo.graph[idx].commit_id.same_as(
            &commit_id,
        ),
        _ => false,
    };
    if shown {
        state.log.current_diff = Some(diff);
        state.log.is_loading_diff = false;
    }
}

/// An operation finished, with a message or an error (see `main_step`).
fn operation_completed(state: &mut AppState, result: Result<String, String>, now: i64) -> (res: Option<Command>)
    requires
        -CLOCK_LIMIT_MS <= now <= CLOCK_LIMIT_MS,
    ensures
        main_step(*old(state), Action::OperationCompleted(result), now, *final(state), res),
{
    if state.active_tasks.len() > 0 {
        state.active_tasks.remove(0);
    }
    if state.mode == AppMode::Loading {
        state.mode = if state.repo.is_some() {
            state.panel_mode_exec()
        } else {
            AppMode::NoRepo
        };
    }
    match result {
        Ok(msg) => {
            state.status_message = Some(msg);
            state.status_clear_time = Some(now + STATUS_CLEAR_MS);
            state.log.diff_cache.clear();
            Some(Command::LoadRepo(None, LOAD_LIMIT, state.revset.clone()))
        },
        Err(err) => {
            state.last_error = Some(error_state(err, now));
            if state.repo.is_some() {
                Some(Command::LoadRepo(None, LOAD_LIMIT, state.revset.clone()))
            } else {
                None
            }
        },
    }
}

/// The error shown for a message, with its hints (see `error_shown`).
fn error_state(err: String, now: i64) -> (res: ErrorState)
    ensures
        error_shown(Some(res), err, now),
{
    let suggestions = get_suggestions(err.as_str());
    assert(views(suggestions@) =~= suggestions@.map_values(|s: String| s@));
    ErrorState { suggestions, message: err, timestamp_ms: now, severity: ErrorSeverity::Error }
}

/// An error was reported; a revset error also drops the filter and reloads
/// (see `main_step`).
fn error_occurred(state: &mut AppState, err: String, now: i64) -> (res: Option<Command>)
    ensures
        main_step(*old(state), Action::ErrorOccurred(err), now, *final(state), res),
{
    let lower = to_lowercase(err.as_str());
    let l = lower.as_str();
    let is_revset_error = state.revset.is_some() && (contains(l, "revset") || contains(
        l,
        "parse error",
    ) || (contains(l, "error") && contains(l, "function")) || (contains(l, "invalid")
        && contains(l, "expression")));
    if is_revset_error {
        state.revset = None;
    }
    state.last_error = Some(error_state(err, now));
    if state.mode == AppMode::Loading {
        state.mode = if state.repo.is_some() {
            state.panel_mode_exec()
        } else {
            AppMode::NoRepo
        };
    }
    if is_revset_error {
        return Some(Command::LoadRepo(None, LOAD_LIMIT, None));
    }
    None
}

/// The clock ticked (see `ticked`); near the end of the graph more is asked for.
fn tick(state: &mut AppState, now: i64) -> (res: Option<Command>)
    requires
        !base_panics(*old(state), Action::Tick),
    ensures
        main_step(*old(state), Action::Tick, now, *final(state), res),
{
    advance_clock(state, now);
    let ghost m = *state;
    let near = match (&state.repo, state.log.list_state.selected()) {
        (Some(repo), Some(idx)) => idx + LOAD_MORE_MARGIN >= repo.graph.len() && !state.is_loading_more
            && state.has_more,
        _ => false,
    };
    assert(near == near_end(m));
    if near {
        let res = load_more(state);
        assert(ticked(*old(state), now, m) && load_more_step(m, *state, res));
        return res;
    }
    assert(ticked(*old(state), now, m));
    None
}

/// The frame, status message, hunk highlight and spinner after a tick (see `ticked`).
fn advance_clock(state: &mut AppState, now: i64)
    ensures
        ticked(*old(state), now, *final(state)),
{
    state.frame_count = state.frame_count.wrapping_add(1);
    if let Some(clear_time) = state.status_clear_time {
        if now >= clear_time {
            state.status_message = None;
            state.status_clear_time = None;
        }
    }
    if let Some(highlight_time) = state.hunk_highlight_time {
        if (now as i128) - (highlight_time as i128) >= HUNK_HIGHLIGHT_MS as i128 {
            state.hunk_highlight_time = None;
        }
    }
    update_spinner(state);
}

/// Shows the spinner frame of the current frame count.
fn update_spinner(state: &mut AppState)
    ensures
        *final(state) == (AppState { spinner: final(state).spinner, ..*old(state) }),
        final(state).spinner@ == spinner_frames()[((old(state).frame_count / 5) % 10) as int],
{
    let frames = vec![
        owned("⠋"),
        owned("⠙"),
        owned("⠹"),
        owned("⠸"),
        owned("⠼"),
        owned("⠴"),
        owned("⠦"),
        owned("⠧"),
        owned("⠇"),
        owned("⠏"),
    ];
    let idx = ((state.frame_count / 5) % 10) as usize;
    let mut frames = frames;
    state.spinner = frames.remove(idx);
}

/// Derives the header texts from the loaded repository (see `derived`).
fn update_repository_derived_state(state: &mut AppState)
    ensures
        derived(*old(state), *final(state)),
{
    let texts = match &state.repo {
        Some(repo) => {
            let repo_text = concat3(" ", repo.workspace_id.as_str(), " ");
            let wc = match find_working_copy(&repo.graph) {
                Some(k) => {
                    let row = &repo.graph[k];
                    let joined_bookmarks = join(&row.bookmarks, ", ");
                    assert(joined_bookmarks@ == joined(views(row.bookmarks@), ", "@)) by {
                        assert(row.bookmarks@.map_values(|p: String| p@) =~= views(row.bookmarks@));
                    }
                    Some((concat3(" ", row.commit_id.0.as_str(), " "), joined_bookmarks))
                },
                None => None,
            };
            let count = usize_text(repo.graph.len());
            let marked = usize_text(state.log.selected_ids.len());
            let mut stats = concat3(" ", count.as_str(), " revs | ");
            stats.append(marked.as_str());
            stats.append(" selected ");
            Some((repo_text, wc, stats))
        },
        None => None,
    };
    if let Some((repo_text, wc, stats)) = texts {
        state.header_state.repo_text = repo_text;
        if let Some((wc_text, branch_text)) = wc {
            state.header_state.wc_text = wc_text;
            state.header_state.branch_text = branch_text;
        }
        state.header_state.stats_text = stats;
    }
}

} // verus!
