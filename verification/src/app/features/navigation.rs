//! Moving through the log and the diff: the selected revision and file,
//! scrolling, hunks, and which panel has the focus.
use crate::app::action::{Action, UpdateResult};
use crate::app::command::Command;
use crate::app::state::{AppMode, AppState, LogState, Panel, TableSelection};
use crate::domain::models::FileChange;
use crate::text::{lines, owned, seq_starts_with, starts_with, text_lines};
use vstd::prelude::*;

verus! {

broadcast use vstd::string::group_string_axioms;

/// The index `delta` rows away from `current` in a list of `len` rows,
/// wrapping around at both ends; 0 for an empty list or no current row.
pub open spec fn new_index(current: Option<usize>, delta: isize, len: usize) -> usize {
    if len == 0 {
        0
    } else {
        match current {
            Some(i) => (((i as isize) + delta) % (len as int)) as usize,
            None => 0,
        }
    }
}

proof fn lemma_negative_mod(k: int, n: int)
    requires
        k >= 0,
        n > 0,
    ensures
        (-(k + 1)) % n == n - 1 - k % n,
        0 <= k % n < n,
{
    vstd::arithmetic::div_mod::lemma_fundamental_div_mod(k, n);
    let q = k / n;
    let r = k % n;
    vstd::arithmetic::div_mod::lemma_mod_bound(k, n);
    assert(-(k + 1) == (-(q + 1)) * n + (n - 1 - r)) by (nonlinear_arith)
        requires
            k == n * q + r,
    ;
    vstd::arithmetic::div_mod::lemma_fundamental_div_mod_converse(-(k + 1), n, -(q + 1), n - 1 - r);
}

/// The row `delta` rows away from `current` (see `new_index`).
pub fn calculate_new_index(current: Option<usize>, delta: isize, len: usize) -> (res: usize)
    requires
        len > 0 ==> len <= isize::MAX,
        len > 0 ==> (current matches Some(i) ==> isize::MIN <= (i as isize) + delta <= isize::MAX),
    ensures
        res == new_index(current, delta, len),
        len > 0 ==> res < len,
{
    if len == 0 {
        return 0;
    }
    match current {
        Some(i) => {
            let s: isize = i as isize + delta;
            if s >= 0 {
                let u: usize = s as usize;
                proof {
                    vstd::arithmetic::div_mod::lemma_mod_bound(s as int, len as int);
                }
                u % len
            } else {
                let k: usize = (-(s + 1)) as usize;
                let m: usize = k % len;
                proof {
                    lemma_negative_mod(k as int, len as int);
                }
                len - 1 - m
            }
        },
        None => 0,
    }
}

/// Number of rows of the loaded graph.
pub open spec fn graph_len(s: AppState) -> nat {
    match s.repo {
        Some(r) => r.graph@.len(),
        None => 0,
    }
}

/// `s` with the selected row replaced.
pub open spec fn with_selected(s: AppState, i: Option<usize>) -> AppState {
    AppState {
        log: LogState {
            list_state: TableSelection {
                selected: i,
                offset: if i is None {
                    0
                } else {
                    s.log.list_state.offset
                },
            },
            ..s.log
        },
        ..s
    }
}

/// `s` with the selected file replaced.
pub open spec fn with_file(s: AppState, f: Option<usize>) -> AppState {
    AppState { log: LogState { selected_file_index: f, ..s.log }, ..s }
}

/// `s` with the diff scrolled to line `k`.
pub open spec fn with_scroll(s: AppState, k: u16) -> AppState {
    AppState { log: LogState { diff_scroll: k, ..s.log }, ..s }
}

/// The state after the selection landed on its row: the diff scroll and file
/// selection are reset, and the row's diff is shown from the cache or, when
/// not cached, asked for with the diff loading.
pub open spec fn selection_handled(old: AppState, new: AppState, res: Option<Command>) -> bool {
    match old.selected_row() {
        Some(row) => {
            &&& new == AppState {
                log: LogState {
                    diff_scroll: 0,
                    selected_file_index: None,
                    current_diff: new.log.current_diff,
                    is_loading_diff: new.log.is_loading_diff,
                    ..old.log
                },
                ..old
            }
            &&& match old.log.diff_cache.lookup(row.commit_id@) {
                Some(d) => new.log.current_diff matches Some(c) && c@ == d
                    && !new.log.is_loading_diff && res is None,
                None => new.log.current_diff is None && new.log.is_loading_diff && res == Some(
                    Command::LoadDiff(row.commit_id),
                ),
            }
        },
        None => new == old && res is None,
    }
}

/// The first of `lines` at or after `from` that begins with `p`.
pub open spec fn first_prefixed(lines: Seq<Seq<char>>, p: Seq<char>, from: int) -> Option<int>
    decreases lines.len() - from,
{
    if from < 0 || from >= lines.len() {
        None
    } else if seq_starts_with(lines[from], p) {
        Some(from)
    } else {
        first_prefixed(lines, p, from + 1)
    }
}

/// The last of `lines` before `upto` that begins with `p`.
pub open spec fn last_prefixed(lines: Seq<Seq<char>>, p: Seq<char>, upto: int) -> Option<int>
    decreases upto,
{
    if upto <= 0 {
        None
    } else if upto - 1 < lines.len() && seq_starts_with(lines[upto - 1], p) {
        Some(upto - 1)
    } else {
        last_prefixed(lines, p, upto - 1)
    }
}

/// The views of a list of strings.
pub open spec fn views(v: Seq<String>) -> Seq<Seq<char>> {
    v.map_values(|l: String| l@)
}

fn find_prefixed_from(ls: &Vec<String>, p: &str, from: usize) -> (res: Option<usize>)
    ensures
        match res {
            Some(k) => first_prefixed(views(ls@), p@, from as int) == Some(k as int),
            None => first_prefixed(views(ls@), p@, from as int) is None,
        },
{
    let n = ls.len();
    let mut i = from;
    while i < n
        invariant
            n == ls@.len(),
            from <= i,
            first_prefixed(views(ls@), p@, from as int) == first_prefixed(views(ls@), p@, i as int),
        decreases n - i,
    {
        if starts_with(ls[i].as_str(), p) {
            return Some(i);
        }
        i += 1;
    }
    None
}

fn find_prefixed_before(ls: &Vec<String>, p: &str, upto: usize) -> (res: Option<usize>)
    ensures
        match res {
            Some(k) => last_prefixed(views(ls@), p@, upto as int) == Some(k as int),
            None => last_prefixed(views(ls@), p@, upto as int) is None,
        },
{
    let n = ls.len();
    let mut i = upto;
    while i > 0
        invariant
            n == ls@.len(),
            i <= upto,
            last_prefixed(views(ls@), p@, upto as int) == last_prefixed(views(ls@), p@, i as int),
        decreases i,
    {
        if i - 1 < n && starts_with(ls[i - 1].as_str(), p) {
            return Some(i - 1);
        }
        i -= 1;
    }
    None
}

/// The first file of `files` with the path `p`.
pub open spec fn file_with_path(files: Seq<FileChange>, p: Seq<char>) -> Option<int> {
    if exists|k: int| 0 <= k < files.len() && #[trigger] files[k].path@ == p {
        Some(choose|k: int| 0 <= k < files.len() && files[k].path@ == p && forall|j: int| 0 <= j < k ==> #[trigger] files[j].path@ != p)
    } else {
        None
    }
}

/// The diff scrolled to the header line of the selected file, when the
/// selected row, its selected file and a diff are there and the diff has a
/// line beginning with `File: ` and the file's path.
pub open spec fn file_scroll(s: AppState) -> AppState {
    match (s.selected_row(), s.log.selected_file_index, s.log.current_diff) {
        (Some(row), Some(fi), Some(diff)) => if fi < row.changed_files@.len() {
            match first_prefixed(
                text_lines(diff@),
                "File: "@ + row.changed_files@[fi as int].path@,
                0,
            ) {
                Some(k) => with_scroll(s, k as u16),
                None => s,
            }
        } else {
            s
        },
        _ => s,
    }
}

/// The file selection after moving down: one further, but not past the last
/// file; the first file when none was selected.
pub open spec fn next_file(sel: Option<usize>, len: nat) -> usize {
    match sel {
        Some(i) => {
            let last: int = if len == 0 {
                0
            } else {
                len - 1
            };
            if i + 1 < last {
                (i + 1) as usize
            } else {
                last as usize
            }
        },
        None => 0,
    }
}

/// The state with the diff panel shown and focused; when no file was
/// selected the first one is, and the diff scrolls to it.
pub open spec fn diff_focused(mid: AppState) -> AppState {
    if mid.log.selected_file_index is None {
        file_scroll(with_file(mid, Some(0)))
    } else {
        mid
    }
}

/// Stepping the selection by `delta` overflows the integer arithmetic.
pub open spec fn step_panics(s: AppState, delta: int) -> bool {
    graph_len(s) > 0 && (graph_len(s) > isize::MAX || (s.log.list_state.selected matches Some(i)
        && !(isize::MIN <= (i as isize) + delta <= isize::MAX)))
}

/// The action cannot be applied to `s` without an arithmetic overflow.
pub open spec fn navigation_panics(s: AppState, a: Action) -> bool {
    match a {
        Action::SelectNext => step_panics(s, 1),
        Action::SelectPrev => step_panics(s, -1),
        Action::SelectNextFile => s.selected_row() is Some && s.log.selected_file_index == Some(
            usize::MAX,
        ),
        _ => false,
    }
}

/// What an action does to the state, for the actions of navigation; `now`
/// is the time of the action, in milliseconds since the Unix epoch.
pub open spec fn navigation_step(
    old: AppState,
    action: Action,
    now: i64,
    new: AppState,
    res: UpdateResult,
) -> bool {
    match action {
        Action::SelectNext => res matches UpdateResult::Handled(c) && selection_handled(
            with_selected(
                old,
                Some(new_index(old.log.list_state.selected, 1isize, graph_len(old) as usize)),
            ),
            new,
            c,
        ),
        Action::SelectPrev => res matches UpdateResult::Handled(c) && selection_handled(
            with_selected(
                old,
                Some(new_index(old.log.list_state.selected, -1isize, graph_len(old) as usize)),
            ),
            new,
            c,
        ),
        Action::SelectIndex(i) => res matches UpdateResult::Handled(c) && selection_handled(
            with_selected(old, Some(i)),
            new,
            c,
        ),
        Action::SelectFile(i) => res == UpdateResult::Handled(None) && new == file_scroll(
            with_file(old, Some(i)),
        ),
        Action::SelectFileByPath(p) => res == UpdateResult::Handled(None) && new == match old.selected_row() {
            Some(row) => match file_with_path(row.changed_files@, p@) {
                Some(k) => file_scroll(with_file(old, Some(k as usize))),
                None => old,
            },
            None => old,
        },
        Action::SelectNextFile => res == UpdateResult::Handled(None) && new == match old.selected_row() {
            Some(row) => file_scroll(
                with_file(
                    old,
                    Some(next_file(old.log.selected_file_index, row.changed_files@.len())),
                ),
            ),
            None => old,
        },
        Action::SelectPrevFile => res == UpdateResult::Handled(None) && new == match old.log.selected_file_index {
            Some(i) => file_scroll(
                with_file(
                    old,
                    Some(
                        if i > 0 {
                            (i - 1) as usize
                        } else {
                            0
                        },
                    ),
                ),
            ),
            None => old,
        },
        Action::ScrollDiffUp(n) => res == UpdateResult::Handled(None) && new == with_scroll(
            old,
            if old.log.diff_scroll >= n {
                (old.log.diff_scroll - n) as u16
            } else {
                0
            },
        ),
        Action::ScrollDiffDown(n) => res == UpdateResult::Handled(None) && new == with_scroll(
            old,
            if old.log.diff_scroll + n <= u16::MAX {
                (old.log.diff_scroll + n) as u16
            } else {
                u16::MAX
            },
        ),
        Action::NextHunk => res == UpdateResult::Handled(None) && new == match old.log.current_diff {
            Some(d) => match first_prefixed(text_lines(d@), "@@"@, old.log.diff_scroll + 1) {
                Some(k) => AppState { hunk_highlight_time: Some(now), ..with_scroll(old, k as u16) },
                None => old,
            },
            None => old,
        },
        Action::PrevHunk => res == UpdateResult::Handled(None) && new == match old.log.current_diff {
            Some(d) => match last_prefixed(text_lines(d@), "@@"@, old.log.diff_scroll as int) {
                Some(k) => AppState { hunk_highlight_time: Some(now), ..with_scroll(old, k as u16) },
                None => old,
            },
            None => old,
        },
        Action::ToggleDiffs => res == UpdateResult::Handled(None) && new == if old.show_diffs {
            AppState {
                show_diffs: false,
                mode: AppMode::Normal,
                focused_panel: Panel::Graph,
                ..old
            }
        } else {
            diff_focused(
                AppState {
                    show_diffs: true,
                    mode: AppMode::Diff,
                    focused_panel: Panel::Diff,
                    diff_ratio: 40,
                    ..old
                },
            )
        },
        Action::FocusDiff => res == UpdateResult::Handled(None) && new == diff_focused(
            AppState { show_diffs: true, mode: AppMode::Diff, focused_panel: Panel::Diff, ..old },
        ),
        Action::FocusGraph => res == UpdateResult::Handled(None) && new == AppState {
            mode: AppMode::Normal,
            focused_panel: Panel::Graph,
            ..old
        },
        _ => res is NotHandled && new == old,
    }
}

/// Applies the actions of navigation (see `navigation_step`); `now` is the
/// time of the action, in milliseconds since the Unix epoch.
#[verifier::rlimit(60)]
#[verifier::spinoff_prover]
pub fn update(state: &mut AppState, action: &Action, now: i64) -> (res: UpdateResult)
    requires
        !navigation_panics(*old(state), *action),
    ensures
        navigation_step(*old(state), *action, now, *final(state), res),
{
    match action {
        Action::SelectNext => UpdateResult::Handled(move_selection(state, 1)),
        Action::SelectPrev => UpdateResult::Handled(move_selection(state, -1)),
        Action::SelectIndex(idx) => {
            state.log.list_state.select(Some(*idx));
            UpdateResult::Handled(handle_selection(state))
        },
        Action::SelectFile(idx) => {
            state.log.selected_file_index = Some(*idx);
            scroll_to_selected_file(state);
            UpdateResult::Handled(None)
        },
        Action::SelectFileByPath(path) => {
            let found = match (&state.repo, state.log.list_state.selected()) {
                (Some(repo), Some(idx)) => if idx < repo.graph.len() {
                    position_of_path(&repo.graph[idx].changed_files, path)
                } else {
                    None
                },
                _ => None,
            };
            if let Some(file_idx) = found {
                state.log.selected_file_index = Some(file_idx);
                scroll_to_selected_file(state);
            }
            UpdateResult::Handled(None)
        },
        Action::SelectNextFile => {
            let count = match (&state.repo, state.log.list_state.selected()) {
                (Some(repo), Some(idx)) => if idx < repo.graph.len() {
                    Some(repo.graph[idx].changed_files.len())
                } else {
                    None
                },
                _ => None,
            };
            if let Some(n) = count {
                let next = match state.log.selected_file_index {
                    Some(i) => {
                        let last = if n == 0 {
                            0
                        } else {
                            n - 1
                        };
                        if i + 1 < last {
                            i + 1
                        } else {
                            last
                        }
                    },
                    None => 0,
                };
                state.log.selected_file_index = Some(next);
                scroll_to_selected_file(state);
            }
            UpdateResult::Handled(None)
        },
        Action::SelectPrevFile => {
            if let Some(i) = state.log.selected_file_index {
                state.log.selected_file_index = Some(
                    if i > 0 {
                        i - 1
                    } else {
                        0
                    },
                );
                scroll_to_selected_file(state);
            }
            UpdateResult::Handled(None)
        },
        Action::ScrollDiffUp(n) => {
            state.log.diff_scroll = state.log.diff_scroll.saturating_sub(*n);
            UpdateResult::Handled(None)
        },
        Action::ScrollDiffDown(n) => {
            state.log.diff_scroll = state.log.diff_scroll.saturating_add(*n);
            UpdateResult::Handled(None)
        },
        Action::NextHunk => {
            let found = match &state.log.current_diff {
                Some(diff) => {
                    let current = state.log.diff_scroll as usize;
                    let ls = lines(diff.as_str());
                    find_prefixed_from(&ls, "@@", current + 1)
                },
                None => None,
            };
            if let Some(idx) = found {
                state.log.diff_scroll = #[verifier::truncate] (idx as u16);
                state.hunk_highlight_time = Some(now);
            }
            UpdateResult::Handled(None)
        },
        Action::PrevHunk => {
            let found = match &state.log.current_diff {
                Some(diff) => {
                    let current = state.log.diff_scroll as usize;
                    let ls = lines(diff.as_str());
                    find_prefixed_before(&ls, "@@", current)
                },
                None => None,
            };
            if let Some(idx) = found {
                state.log.diff_scroll = #[verifier::truncate] (idx as u16);
                state.hunk_highlight_time = Some(now);
            }
            UpdateResult::Handled(None)
        },
        Action::ToggleDiffs => {
            state.show_diffs = !state.show_diffs;
            if !state.show_diffs {
                state.mode = AppMode::Normal;
                state.focused_panel = Panel::Graph;
            } else {
                state.mode = AppMode::Diff;
                state.focused_panel = Panel::Diff;
                state.diff_ratio = 40;
                if state.log.selected_file_index.is_none() {
                    state.log.selected_file_index = Some(0);
                    scroll_to_selected_file(state);
                }
            }
            UpdateResult::Handled(None)
        },
        Action::FocusDiff => {
            state.show_diffs = true;
            state.mode = AppMode::Diff;
            state.focused_panel = Panel::Diff;
            if state.log.selected_file_index.is_none() {
                state.log.selected_file_index = Some(0);
                scroll_to_selected_file(state);
            }
            UpdateResult::Handled(None)
        },
        Action::FocusGraph => {
            state.mode = AppMode::Normal;
            state.focused_panel = Panel::Graph;
            UpdateResult::Handled(None)
        },
        _ => UpdateResult::NotHandled,
    }
}

fn position_of_path(files: &Vec<FileChange>, path: &String) -> (res: Option<usize>)
    ensures
        match res {
            Some(k) => file_with_path(files@, path@) == Some(k as int),
            None => file_with_path(files@, path@) is None,
        },
{
    let n = files.len();
    for i in 0..n
        invariant
            n == files@.len(),
            forall|j: int| 0 <= j < i ==> #[trigger] files@[j].path@ != path@,
    {
        if files[i].path == *path {
            let ghost k = i as int;
            assert(0 <= k < files@.len() && files@[k].path@ == path@);
            assert(forall|j: int| 0 <= j < k ==> #[trigger] files@[j].path@ != path@);
            let ghost c = choose|k: int|
                0 <= k < files@.len() && files@[k].path@ == path@ && forall|j: int|
                    0 <= j < k ==> #[trigger] files@[j].path@ != path@;
            assert(c == k) by {
                if c < k {
                    assert(files@[c].path@ != path@);
                } else if c > k {
                    assert(files@[k].path@ != path@);
                }
            }
            return Some(i);
        }
    }
    None
}

/// Moves the selection by `delta` rows, wrapping around, and shows the
/// row's diff (see `selection_handled`).
fn move_selection(state: &mut AppState, delta: isize) -> (res: Option<Command>)
    requires
        !step_panics(*old(state), delta as int),
    ensures
        selection_handled(
            with_selected(
                *old(state),
                Some(
                    new_index(old(state).log.list_state.selected, delta, graph_len(*old(state)) as usize),
                ),
            ),
            *final(state),
            res,
        ),
{
    let len = match &state.repo {
        Some(r) => r.graph.len(),
        None => 0,
    };
    let current_index = state.log.list_state.selected();
    let new_index = calculate_new_index(current_index, delta, len);
    state.log.list_state.select(Some(new_index));
    handle_selection(state)
}

/// Shows the diff of the selected row: from the cache, or else marks the
/// diff as loading and asks for it (see `selection_handled`).
pub fn handle_selection(state: &mut AppState) -> (res: Option<Command>)
    ensures
        selection_handled(*old(state), *final(state), res),
{
    let commit_id = match (&state.repo, state.log.list_state.selected()) {
        (Some(repo), Some(idx)) => if idx < repo.graph.len() {
            Some(repo.graph[idx].commit_id.clone())
        } else {
            None
        },
        _ => None,
    };
    if let Some(commit_id) = commit_id {
        state.log.diff_scroll = 0;
        state.log.selected_file_index = None;
        let cached = match state.log.diff_cache.get(&commit_id) {
            Some(d) => Some(d.clone()),
            None => None,
        };
        if let Some(d) = cached {
            state.log.current_diff = Some(d);
            state.log.is_loading_diff = false;
            return None;
        }
        state.log.current_diff = None;
        state.log.is_loading_diff = true;
        return Some(Command::LoadDiff(commit_id));
    }
    None
}

/// Scrolls the diff to the selected file (see `file_scroll`).
fn scroll_to_selected_file(state: &mut AppState)
    ensures
        *final(state) == file_scroll(*old(state)),
{
    let found = match (
        &state.repo,
        state.log.list_state.selected(),
        state.log.selected_file_index,
        &state.log.current_diff,
    ) {
        (Some(repo), Some(idx), Some(file_idx), Some(diff)) => {
            if idx < repo.graph.len() && file_idx < repo.graph[idx].changed_files.len() {
                let mut target = owned("File: ");
                target.append(repo.graph[idx].changed_files[file_idx].path.as_str());
                let ls = lines(diff.as_str());
                assert(target@ =~= "File: "@ + repo.graph@[idx as int].changed_files@[file_idx as int].path@);
                find_prefixed_from(&ls, target.as_str(), 0)
            } else {
                None
            }
        },
        _ => None,
    };
    if let Some(line_idx) = found {
        state.log.diff_scroll = #[verifier::truncate] (line_idx as u16);
    }
}

} // verus!
