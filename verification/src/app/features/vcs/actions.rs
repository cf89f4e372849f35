//! Version-control intents: each turns into a command for the runtime, or
//! opens an input or a menu that leads to one.
use crate::app::action::{Action, UpdateResult};
use crate::app::command::Command;
use crate::app::features::navigation::views;
use crate::app::features::ui::menu_items;
use crate::app::state::input::newline_pieces;
use crate::app::state::{
    AppMode, AppState, AppTextArea, ContextMenuState, ErrorSeverity, ErrorState, InputState,
    LogState,
};
use crate::domain::models::{CommitId, FileStatus, GraphRow};
use crate::text::{owned, seq_contains};
use vstd::prelude::*;

verus! {

broadcast use vstd::string::group_string_axioms;

/// The revision an intent applies to: the one given, or else the selected row's.
pub open spec fn target_id(s: AppState, given: Option<CommitId>) -> Option<CommitId> {
    match given {
        Some(id) => Some(id),
        None => match s.selected_row() {
            Some(row) => Some(row.commit_id),
            None => None,
        },
    }
}

/// The first row of `graph` that is the working copy.
pub open spec fn working_copy_row(graph: Seq<GraphRow>) -> Option<GraphRow> {
    if exists|k: int| 0 <= k < graph.len() && #[trigger] graph[k].is_working_copy {
        let k = choose|k: int|
            0 <= k < graph.len() && graph[k].is_working_copy && forall|j: int|
                0 <= j < k ==> !(#[trigger] graph[j].is_working_copy);
        Some(graph[k])
    } else {
        None
    }
}

/// The working copy of the loaded graph.
pub open spec fn working_copy(s: AppState) -> Option<GraphRow> {
    match s.repo {
        Some(r) => working_copy_row(r.graph@),
        None => None,
    }
}

/// Some file of the row has unresolved conflicts.
pub open spec fn has_conflicted_file(row: GraphRow) -> bool {
    exists|k: int|
        0 <= k < row.changed_files@.len() && #[trigger] row.changed_files@[k].status
            == FileStatus::Conflicted
}

/// The message of the error shown when committing with conflicts.
pub open spec fn commit_conflict_message() -> Seq<char> {
    "Cannot commit: there are unresolved merge conflicts."@
}

/// The hint of the error shown when committing with conflicts.
pub open spec fn commit_conflict_hint() -> Seq<char> {
    "Resolve conflicts using 'm' (or 'jj resolve') before committing."@
}

/// The menu offered to push a revision with several bookmarks: one item per
/// bookmark, then one to push them all.
pub open spec fn push_menu(bookmarks: Seq<String>) -> Seq<(Seq<char>, Action)> {
    Seq::new(
        bookmarks.len(),
        |i: int| ("Push bookmark: "@ + bookmarks[i]@, Action::Push(Some(bookmarks[i]))),
    ).push(("Push All"@, Action::Push(None)))
}

/// `new` is `old` with the marked revisions forgotten.
pub open spec fn marks_cleared(old: AppState, new: AppState) -> bool {
    &&& new == AppState { log: LogState { selected_ids: new.log.selected_ids, ..old.log }, ..old }
    &&& new.log.selected_ids@.len() == 0
}

/// An operation on the selected revisions: with none it asks for no
/// command; otherwise the marks are cleared and `asked` holds of the result.
pub open spec fn on_selection(old: AppState, new: AppState, res: UpdateResult, asked: bool) -> bool {
    if old.selected_commit_ids().len() == 0 {
        res == UpdateResult::Handled(None) && new == old
    } else {
        marks_cleared(old, new) && asked
    }
}

/// A text input opened in `mode` holding `text`.
pub open spec fn input_opened(old: AppState, new: AppState, mode: AppMode, text: Seq<char>) -> bool {
    &&& new == AppState { mode, input: new.input, ..old }
    &&& new.input matches Some(i) && i.text_area.lines_view() == newline_pieces(text)
}

/// What an action does to the state, for the version-control intents; `now`
/// is the time of the action, in milliseconds since the Unix epoch.
pub open spec fn vcs_step(old: AppState, action: Action, now: i64, new: AppState, res: UpdateResult) -> bool {
    match action {
        Action::SnapshotWorkingCopy => res == UpdateResult::Handled(Some(Command::Snapshot))
            && new == old,
        Action::EditRevision(given) => new == old && res == UpdateResult::Handled(
            match target_id(old, given) {
                Some(id) => Some(Command::Edit(id)),
                None => None,
            },
        ),
        Action::NewRevision(given) => new == old && res == UpdateResult::Handled(
            match target_id(old, given) {
                Some(id) => Some(Command::New(id)),
                None => None,
            },
        ),
        Action::SplitRevision(given) => new == old && res == UpdateResult::Handled(
            match target_id(old, given) {
                Some(id) => Some(Command::Split(id)),
                None => None,
            },
        ),
        Action::SquashRevision | Action::EnterSquashMode => on_selection(
            old,
            new,
            res,
            (res matches UpdateResult::Handled(Some(Command::Squash(v))) && v@
                == old.selected_commit_ids()),
        ),
        Action::DuplicateRevision => on_selection(
            old,
            new,
            res,
            (res matches UpdateResult::Handled(Some(Command::Duplicate(v))) && v@
                == old.selected_commit_ids()),
        ),
        Action::ParallelizeRevision => on_selection(
            old,
            new,
            res,
            (res matches UpdateResult::Handled(Some(Command::Parallelize(v))) && v@
                == old.selected_commit_ids()),
        ),
        Action::AbandonRevision(given) => {
            let ids = match given {
                Some(id) => seq![id],
                None => old.selected_commit_ids(),
            };
            if ids.len() == 0 {
                res == UpdateResult::Handled(None) && new == old
            } else {
                &&& marks_cleared(old, new)
                &&& res matches UpdateResult::Handled(Some(Command::Abandon(v))) && v@ == ids
            }
        },
        Action::RevertRevision(ids) => {
            &&& marks_cleared(old, new)
            &&& res matches UpdateResult::Handled(Some(Command::Revert(v))) && v@ == ids@
        },
        Action::DescribeRevisionIntent => res == UpdateResult::Handled(None) && input_opened(
            old,
            new,
            AppMode::Input,
            match old.selected_row() {
                Some(row) => row.description@,
                None => Seq::empty(),
            },
        ),
        Action::DescribeRevision(id, msg) => res == UpdateResult::Handled(
            Some(Command::DescribeRevision(id, msg)),
        ) && new == AppState { mode: AppMode::Normal, input: None, ..old },
        Action::CommitWorkingCopyIntent => {
            &&& res == UpdateResult::Handled(None)
            &&& match working_copy(old) {
                Some(row) if has_conflicted_file(row) => {
                    &&& new == AppState { last_error: new.last_error, ..old }
                    &&& new.last_error matches Some(e) && e.message@ == commit_conflict_message()
                        && views(e.suggestions@) == seq![commit_conflict_hint()] && e.timestamp_ms
                        == now && e.severity == ErrorSeverity::Error
                },
                Some(row) => input_opened(old, new, AppMode::CommitInput, row.description@),
                None => input_opened(old, new, AppMode::CommitInput, Seq::empty()),
            }
        },
        Action::CommitWorkingCopy(msg) => res == UpdateResult::Handled(Some(Command::Commit(msg)))
            && new == AppState { mode: AppMode::Normal, input: None, ..old },
        Action::Absorb => res == UpdateResult::Handled(Some(Command::Absorb)) && new == old,
        Action::RebaseRevisionIntent => {
            &&& res == UpdateResult::Handled(None)
            &&& if old.selected_commit_ids().len() == 0 {
                new == old
            } else {
                &&& new == AppState {
                    rebase_sources: new.rebase_sources,
                    mode: AppMode::RebaseSelect,
                    log: LogState { selected_ids: new.log.selected_ids, ..old.log },
                    ..old
                }
                &&& new.rebase_sources@ == old.selected_commit_ids()
                &&& new.log.selected_ids@.len() == 0
            }
        },
        Action::RebaseRevision(sources, dest) => {
            &&& res matches UpdateResult::Handled(Some(Command::Rebase(v, d))) && v@ == sources@
                && d == dest
            &&& new == AppState {
                mode: AppMode::Normal,
                rebase_sources: new.rebase_sources,
                ..old
            }
            &&& new.rebase_sources@.len() == 0
        },
        Action::SetBookmarkIntent => res == UpdateResult::Handled(None) && input_opened(
            old,
            new,
            AppMode::BookmarkInput,
            Seq::empty(),
        ),
        Action::SetBookmark(id, name) => res == UpdateResult::Handled(
            Some(Command::SetBookmark(id, name)),
        ) && new == AppState { mode: AppMode::Normal, ..old },
        Action::DeleteBookmarkIntent => new == old && res == UpdateResult::Handled(
            match old.selected_row() {
                Some(row) => if row.bookmarks@.len() > 0 {
                    Some(Command::DeleteBookmark(row.bookmarks@[0]))
                } else {
                    None
                },
                None => None,
            },
        ),
        Action::DeleteBookmark(name) => res == UpdateResult::Handled(
            Some(Command::DeleteBookmark(name)),
        ) && new == AppState { mode: AppMode::Normal, ..old },
        Action::Undo => res == UpdateResult::Handled(Some(Command::Undo)) && new == old,
        Action::Redo => res == UpdateResult::Handled(Some(Command::Redo)) && new == old,
        Action::Fetch => res == UpdateResult::Handled(Some(Command::Fetch)) && new == old,
        Action::PushIntent => match old.selected_row() {
            Some(row) => if row.bookmarks@.len() == 0 {
                res == UpdateResult::Handled(Some(Command::Push(None))) && new == old
            } else if row.bookmarks@.len() == 1 {
                res == UpdateResult::Handled(Some(Command::Push(Some(row.bookmarks@[0]))))
                    && new == old
            } else {
                &&& res == UpdateResult::Handled(None)
                &&& new == AppState {
                    mode: AppMode::ContextMenu,
                    context_menu: new.context_menu,
                    ..old
                }
                &&& new.context_menu matches Some(m) && m.commit_id == row.commit_id && m.x == 10
                    && m.y == 10 && m.selected_index == 0 && menu_items(m.actions@) == push_menu(
                    row.bookmarks@,
                )
            },
            None => res == UpdateResult::Handled(None) && new == old,
        },
        Action::Push(b) => res == UpdateResult::Handled(Some(Command::Push(b))) && new == old,
        Action::ResolveConflict(path) => res == UpdateResult::Handled(
            Some(Command::ResolveConflict(path)),
        ) && new == old,
        Action::InitRepo => res == UpdateResult::Handled(Some(Command::InitRepo)) && new == old,
        _ => res is NotHandled && new == old,
    }
}

/// The revision an intent applies to (see `target_id`).
fn resolve_target(state: &AppState, given: &Option<CommitId>) -> (res: Option<CommitId>)
    ensures
        res == target_id(*state, *given),
{
    match given {
        Some(id) => Some(id.clone()),
        None => match (&state.repo, state.log.list_state.selected()) {
            (Some(repo), Some(idx)) => if idx < repo.graph.len() {
                Some(repo.graph[idx].commit_id.clone())
            } else {
                None
            },
            _ => None,
        },
    }
}

/// The position of the working copy in `graph` (see `working_copy_row`).
pub(crate) fn find_working_copy(graph: &Vec<GraphRow>) -> (res: Option<usize>)
    ensures
        match res {
            Some(k) => k < graph@.len() && working_copy_row(graph@) == Some(graph@[k as int]),
            None => working_copy_row(graph@) is None,
        },
{
    let n = graph.len();
    for i in 0..n
        invariant
            n == graph@.len(),
            forall|j: int| 0 <= j < i ==> !(#[trigger] graph@[j].is_working_copy),
    {
        if graph[i].is_working_copy {
            proof {
                let p = i as int;
                let c = choose|k: int|
                    0 <= k < graph@.len() && graph@[k].is_working_copy && forall|j: int|
                        0 <= j < k ==> !(#[trigger] graph@[j].is_working_copy);
                assert(c == p) by {
                    if c < p {
                        assert(!graph@[c].is_working_copy);
                    } else if c > p {
                        assert(!graph@[p].is_working_copy);
                    }
                }
            }
            return Some(i);
        }
    }
    None
}

/// Whether some file of `row` has conflicts (see `has_conflicted_file`).
fn any_conflicted(row: &GraphRow) -> (res: bool)
    ensures
        res == has_conflicted_file(*row),
{
    let n = row.changed_files.len();
    for i in 0..n
        invariant
            n == row.changed_files@.len(),
            forall|j: int| 0 <= j < i ==> #[trigger] row.changed_files@[j].status != FileStatus::Conflicted,
    {
        if row.changed_files[i].status == FileStatus::Conflicted {
            return true;
        }
    }
    false
}

/// Forgets the marked revisions.
fn clear_marks(state: &mut AppState)
    ensures
        marks_cleared(*old(state), *final(state)),
{
    state.log.selected_ids.clear();
}

/// The items of the menu to push one of several bookmarks (see `push_menu`).
fn push_menu_items(bookmarks: &Vec<String>) -> (res: Vec<(String, Action)>)
    ensures
        menu_items(res@) == push_menu(bookmarks@),
{
    let mut actions: Vec<(String, Action)> = Vec::new();
    let n = bookmarks.len();
    for i in 0..n
        invariant
            n == bookmarks@.len(),
            menu_items(actions@) == Seq::new(
                i as nat,
                |k: int| ("Push bookmark: "@ + bookmarks@[k]@, Action::Push(Some(bookmarks@[k]))),
            ),
    {
        let mut label = owned("Push bookmark: ");
        label.append(bookmarks[i].as_str());
        let b = bookmarks[i].clone();
        let ghost item = (label@, Action::Push(Some(b)));
        assert(item == ("Push bookmark: "@ + bookmarks@[i as int]@, Action::Push(Some(bookmarks@[i as int]))));
        let ghost before = actions@;
        actions.push((label, Action::Push(Some(b))));
        assert(menu_items(actions@) =~= menu_items(before).push(item));
        assert(menu_items(actions@) =~= Seq::new(
            (i + 1) as nat,
            |k: int| ("Push bookmark: "@ + bookmarks@[k]@, Action::Push(Some(bookmarks@[k]))),
        ));
    }
    actions.push((owned("Push All"), Action::Push(None)));
    assert(menu_items(actions@) =~= push_menu(bookmarks@));
    actions
}

/// Applies the version-control intents (see `vcs_step`); `now` is the time
/// of the action, in milliseconds since the Unix epoch.
#[verifier::rlimit(80)]
#[verifier::spinoff_prover]
pub fn update(state: &mut AppState, action: &Action, now: i64) -> (res: UpdateResult)
    ensures
        vcs_step(*old(state), *action, now, *final(state), res),
{
    match action {
        Action::SnapshotWorkingCopy => UpdateResult::Handled(Some(Command::Snapshot)),
        Action::EditRevision(given) => {
            let id = resolve_target(state, given);
            UpdateResult::Handled(
                match id {
                    Some(id) => Some(Command::Edit(id)),
                    None => None,
                },
            )
        },
        Action::SquashRevision | Action::EnterSquashMode => {
            let ids = state.get_selected_commit_ids();
            if ids.len() == 0 {
                UpdateResult::Handled(None)
            } else {
                clear_marks(state);
                UpdateResult::Handled(Some(Command::Squash(ids)))
            }
        },
        Action::NewRevision(given) => {
            let id = resolve_target(state, given);
            UpdateResult::Handled(
                match id {
                    Some(id) => Some(Command::New(id)),
                    None => None,
                },
            )
        },
        Action::DescribeRevisionIntent => {
            state.mode = AppMode::Input;
            let text_area = match (&state.repo, state.log.list_state.selected()) {
                (Some(repo), Some(idx)) => if idx < repo.graph.len() {
                    AppTextArea::with_text(repo.graph[idx].description.as_str())
                } else {
                    AppTextArea::empty()
                },
                _ => AppTextArea::empty(),
            };
            state.input = Some(InputState { text_area });
            UpdateResult::Handled(None)
        },
        Action::DescribeRevision(commit_id, message) => {
            state.mode = AppMode::Normal;
            state.input = None;
            UpdateResult::Handled(
                Some(Command::DescribeRevision(commit_id.clone(), message.clone())),
            )
        },
        Action::CommitWorkingCopyIntent => {
            let wc = match &state.repo {
                Some(repo) => match find_working_copy(&repo.graph) {
                    Some(k) => Some((any_conflicted(&repo.graph[k]), k)),
                    None => None,
                },
                None => None,
            };
            if let Some((true, _)) = wc {
                state.last_error = Some(
                    ErrorState {
                        suggestions: vec![
                            owned(
                                "Resolve conflicts using 'm' (or 'jj resolve') before committing.",
                            ),
                        ],
                        message: owned("Cannot commit: there are unresolved merge conflicts."),
                        timestamp_ms: now,
                        severity: ErrorSeverity::Error,
                    },
                );
                proof {
                    let e = state.last_error->0;
                    assert(views(e.suggestions@) =~= seq![commit_conflict_hint()]);
                }
                return UpdateResult::Handled(None);
            }
            state.mode = AppMode::CommitInput;
            let text_area = match (&state.repo, wc) {
                (Some(repo), Some((_, k))) => AppTextArea::with_text(
                    repo.graph[k].description.as_str(),
                ),
                _ => AppTextArea::empty(),
            };
            state.input = Some(InputState { text_area });
            UpdateResult::Handled(None)
        },
        Action::CommitWorkingCopy(message) => {
            state.mode = AppMode::Normal;
            state.input = None;
            UpdateResult::Handled(Some(Command::Commit(message.clone())))
        },
        Action::AbandonRevision(given) => {
            let ids = match given {
                Some(id) => {
                    let v = vec![id.clone()];
                    assert(v@ =~= seq![*id]);
                    v
                },
                None => state.get_selected_commit_ids(),
            };
            if ids.len() == 0 {
                UpdateResult::Handled(None)
            } else {
                clear_marks(state);
                UpdateResult::Handled(Some(Command::Abandon(ids)))
            }
        },
        Action::RevertRevision(ids) => {
            clear_marks(state);
            let v = ids.clone();
            assert(v@ =~= ids@);
            UpdateResult::Handled(Some(Command::Revert(v)))
        },
        Action::Absorb => UpdateResult::Handled(Some(Command::Absorb)),
        Action::DuplicateRevision => {
            let ids = state.get_selected_commit_ids();
            if ids.len() == 0 {
                UpdateResult::Handled(None)
            } else {
                clear_marks(state);
                UpdateResult::Handled(Some(Command::Duplicate(ids)))
            }
        },
        Action::ParallelizeRevision => {
            let ids = state.get_selected_commit_ids();
            if ids.len() == 0 {
                UpdateResult::Handled(None)
            } else {
                clear_marks(state);
                UpdateResult::Handled(Some(Command::Parallelize(ids)))
            }
        },
        Action::RebaseRevisionIntent => {
            let ids = state.get_selected_commit_ids();
            if ids.len() == 0 {
                UpdateResult::Handled(None)
            } else {
                state.rebase_sources = ids;
                state.mode = AppMode::RebaseSelect;
                state.log.selected_ids.clear();
                UpdateResult::Handled(None)
            }
        },
        Action::RebaseRevision(sources, destination) => {
            state.mode = AppMode::Normal;
            state.rebase_sources.clear();
            let v = sources.clone();
            assert(v@ =~= sources@);
            UpdateResult::Handled(Some(Command::Rebase(v, destination.clone())))
        },
        Action::SetBookmarkIntent => {
            state.mode = AppMode::BookmarkInput;
            state.input = Some(InputState { text_area: AppTextArea::empty() });
            UpdateResult::Handled(None)
        },
        Action::SetBookmark(commit_id, name) => {
            state.mode = AppMode::Normal;
            UpdateResult::Handled(Some(Command::SetBookmark(commit_id.clone(), name.clone())))
        },
        Action::DeleteBookmarkIntent => {
            let first = match (&state.repo, state.log.list_state.selected()) {
                (Some(repo), Some(idx)) => if idx < repo.graph.len()
                    && repo.graph[idx].bookmarks.len() > 0 {
                    Some(repo.graph[idx].bookmarks[0].clone())
                } else {
                    None
                },
                _ => None,
            };
            UpdateResult::Handled(
                match first {
                    Some(b) => Some(Command::DeleteBookmark(b)),
                    None => None,
                },
            )
        },
        Action::DeleteBookmark(name) => {
            state.mode = AppMode::Normal;
            UpdateResult::Handled(Some(Command::DeleteBookmark(name.clone())))
        },
        Action::SplitRevision(given) => {
            let id = resolve_target(state, given);
            UpdateResult::Handled(
                match id {
                    Some(id) => Some(Command::Split(id)),
                    None => None,
                },
            )
        },
        Action::Undo => UpdateResult::Handled(Some(Command::Undo)),
        Action::Redo => UpdateResult::Handled(Some(Command::Redo)),
        Action::Fetch => UpdateResult::Handled(Some(Command::Fetch)),
        Action::PushIntent => push_intent(state),
        Action::Push(bookmark) => UpdateResult::Handled(
            Some(
                Command::Push(
                    match bookmark {
                        Some(b) => Some(b.clone()),
                        None => None,
                    },
                ),
            ),
        ),
        Action::ResolveConflict(path) => UpdateResult::Handled(
            Some(Command::ResolveConflict(path.clone())),
        ),
        Action::InitRepo => UpdateResult::Handled(Some(Command::InitRepo)),
        _ => UpdateResult::NotHandled,
    }
}

/// Pushes the selected revision's bookmark, all bookmarks when it has none,
/// or opens a menu to choose when it has several.
fn push_intent(state: &mut AppState) -> (res: UpdateResult)
    ensures
        vcs_step(*old(state), Action::PushIntent, 0, *final(state), res),
{
    let row_idx = match (&state.repo, state.log.list_state.selected()) {
        (Some(repo), Some(idx)) => if idx < repo.graph.len() {
            Some(idx)
        } else {
            None
        },
        _ => None,
    };
    if let Some(idx) = row_idx {
        let menu = match &state.repo {
            Some(repo) => {
                let row = &repo.graph[idx];
                if row.bookmarks.len() == 0 {
                    return UpdateResult::Handled(Some(Command::Push(None)));
                } else if row.bookmarks.len() == 1 {
                    return UpdateResult::Handled(Some(Command::Push(Some(row.bookmarks[0].clone()))));
                }
                ContextMenuState {
                    commit_id: row.commit_id.clone(),
                    x: 10,
                    y: 10,
                    selected_index: 0,
                    actions: push_menu_items(&row.bookmarks),
                }
            },
            None => {
                return UpdateResult::Handled(None);
            },
        };
        state.mode = AppMode::ContextMenu;
        state.context_menu = Some(menu);
    }
    UpdateResult::Handled(None)
}

} // verus!
