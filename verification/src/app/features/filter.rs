//! Revset filters: the filter input, quick filters, and the lists of recent
//! and preset filters that the input cycles through.
use crate::app::action::{Action, UpdateResult};
use crate::app::command::Command;
use crate::app::features::navigation::views;
use crate::app::state::input::newline_pieces;
use crate::app::state::{AppMode, AppState, AppTextArea, InputState};
use crate::text::{owned, trim, trimmed};
use vstd::prelude::*;

verus! {

broadcast use vstd::string::group_string_axioms;

/// The most recent filters kept.
pub const RECENT_FILTERS_MAX: usize = 10;

/// The number of graph rows that one load asks for.
pub const LOAD_LIMIT: usize = 100;

/// The first position of `x` in `s`.
pub open spec fn first_index(s: Seq<Seq<char>>, x: Seq<char>) -> Option<int> {
    if exists|k: int| 0 <= k < s.len() && s[k] == x {
        Some(choose|k: int| 0 <= k < s.len() && s[k] == x && forall|j: int| 0 <= j < k ==> s[j] != x)
    } else {
        None
    }
}

/// The recent filters after using `f`: `f` moves (or is added) to the
/// front, and only the first ten are kept.
pub open spec fn recent_after(recent: Seq<Seq<char>>, f: Seq<char>) -> Seq<Seq<char>> {
    let without = match first_index(recent, f) {
        Some(p) => recent.remove(p),
        None => recent,
    };
    let all = seq![f] + without;
    if all.len() <= RECENT_FILTERS_MAX {
        all
    } else {
        all.subrange(0, RECENT_FILTERS_MAX as int)
    }
}

/// The filters that the filter input cycles through: the presets or the recent ones.
pub open spec fn filter_list(s: AppState) -> Seq<String> {
    if s.is_selecting_presets {
        s.preset_filters@
    } else {
        s.recent_filters@
    }
}

/// The input holds a fresh text area with the text `t`.
pub open spec fn input_holds(input: Option<InputState>, t: Seq<char>) -> bool {
    input matches Some(i) && i.text_area.lines_view() == newline_pieces(t)
}

/// `new` is `old` with the filter at `k` chosen: the index is set and an open
/// input is refilled with that filter; everything else stays.
pub open spec fn filter_chosen(old: AppState, new: AppState, k: usize) -> bool {
    &&& new == AppState { selected_filter_index: Some(k), input: new.input, ..old }
    &&& (old.input is None ==> new.input is None)
    &&& (old.input is Some ==> input_holds(new.input, filter_list(old)[k as int]@))
}

/// The command that reloads the graph with the revset `r`.
pub open spec fn reload(r: Option<String>) -> Command {
    Command::LoadRepo(None, LOAD_LIMIT, r)
}

/// The revset of a quick filter action.
pub open spec fn quick_filter(a: Action) -> Option<Seq<char>> {
    match a {
        Action::FilterMine => Some("mine()"@),
        Action::FilterTrunk => Some("trunk()"@),
        Action::FilterConflicts => Some("conflicts()"@),
        Action::FilterAll => Some("all()"@),
        Action::FilterHeads => Some("heads(all())"@),
        Action::FilterBookmarks => Some("bookmarks()"@),
        Action::FilterImmutable => Some("immutable()"@),
        Action::FilterMutable => Some("mutable()"@),
        Action::FilterEmpty => Some("empty()"@),
        Action::FilterDivergent => Some("divergent()"@),
        Action::FilterMerges => Some("merges()"@),
        Action::FilterTags => Some("tags()"@),
        Action::FilterRemoteBookmarks => Some("remote_bookmarks()"@),
        Action::FilterWorking => Some("working_copies()"@),
        _ => None,
    }
}

/// What an action does to the state, for the actions of filtering.
pub open spec fn filter_step(old: AppState, action: Action, new: AppState, res: UpdateResult) -> bool {
    match action {
        Action::EnterFilterMode => {
            &&& res == UpdateResult::Handled(None)
            &&& new == AppState {
                mode: AppMode::FilterInput,
                is_selecting_presets: false,
                input: new.input,
                selected_filter_index: None,
                ..old
            }
            &&& input_holds(
                new.input,
                match old.revset {
                    Some(r) => r@,
                    None => Seq::empty(),
                },
            )
        },
        Action::ApplyFilter(filter) => {
            let f = trimmed(filter@);
            &&& res == UpdateResult::Handled(Some(reload(new.revset)))
            &&& new == AppState {
                mode: AppMode::Normal,
                input: None,
                selected_filter_index: None,
                revset: new.revset,
                recent_filters: new.recent_filters,
                ..old
            }
            &&& if f.len() == 0 {
                new.revset is None && new.recent_filters == old.recent_filters
            } else {
                new.revset matches Some(r) && r@ == f && views(new.recent_filters@) == recent_after(
                    views(old.recent_filters@),
                    f,
                )
            }
        },
        Action::ClearFilter => {
            &&& res == UpdateResult::Handled(Some(reload(None)))
            &&& new == AppState { revset: None, selected_filter_index: None, ..old }
        },
        Action::FilterNext => {
            &&& res == UpdateResult::Handled(None)
            &&& if old.mode == AppMode::FilterInput && filter_list(old).len() > 0 {
                filter_chosen(
                    old,
                    new,
                    match old.selected_filter_index {
                        Some(i) => ((i + 1) % (filter_list(old).len() as int)) as usize,
                        None => 0,
                    },
                )
            } else {
                new == old
            }
        },
        Action::FilterPrev => {
            &&& res == UpdateResult::Handled(None)
            &&& if old.mode == AppMode::FilterInput && filter_list(old).len() > 0 {
                filter_chosen(
                    old,
                    new,
                    match old.selected_filter_index {
                        Some(i) => if i == 0 {
                            (filter_list(old).len() - 1) as usize
                        } else {
                            (i - 1) as usize
                        },
                        None => (filter_list(old).len() - 1) as usize,
                    },
                )
            } else {
                new == old
            }
        },
        Action::ToggleFilterSource => {
            &&& res == UpdateResult::Handled(None)
            &&& if old.mode == AppMode::FilterInput {
                let mid = AppState {
                    is_selecting_presets: !old.is_selecting_presets,
                    selected_filter_index: Some(0),
                    ..old
                };
                if filter_list(mid).len() > 0 {
                    filter_chosen(mid, new, 0)
                } else {
                    new == mid
                }
            } else {
                new == old
            }
        },
        _ => match quick_filter(action) {
            Some(q) => {
                &&& res == UpdateResult::Handled(Some(reload(new.revset)))
                &&& new == AppState { revset: new.revset, mode: AppMode::Normal, ..old }
                &&& new.revset matches Some(r) && r@ == q
            },
            None => res is NotHandled && new == old,
        },
    }
}

/// The filter-list part of the state's invariant: a chosen filter is the
/// first or lies within the list it was chosen from.
pub open spec fn filter_index_ok(s: AppState) -> bool {
    s.selected_filter_index matches Some(i) ==> (i == 0 || i < filter_list(s).len())
}

/// Applies the actions of filtering (see `filter_step`).
#[verifier::rlimit(60)]
#[verifier::spinoff_prover]
pub fn update(state: &mut AppState, action: &Action) -> (res: UpdateResult)
    requires
        filter_index_ok(*old(state)),
    ensures
        filter_step(*old(state), *action, *final(state), res),
{
    match action {
        Action::EnterFilterMode => {
            state.mode = AppMode::FilterInput;
            state.is_selecting_presets = false;
            let text_area = match &state.revset {
                Some(revset) => AppTextArea::with_text(revset.as_str()),
                None => AppTextArea::empty(),
            };
            state.input = Some(InputState { text_area });
            state.selected_filter_index = None;
            UpdateResult::Handled(None)
        },
        Action::ApplyFilter(filter) => {
            state.mode = AppMode::Normal;
            state.input = None;
            state.selected_filter_index = None;
            let filter_str = trim(filter.as_str());
            if filter_str.as_str().is_empty() {
                state.revset = None;
            } else {
                state.revset = Some(filter_str.clone());
                remember_filter(&mut state.recent_filters, filter_str);
            }
            UpdateResult::Handled(Some(Command::LoadRepo(None, LOAD_LIMIT, state.revset.clone())))
        },
        Action::ClearFilter => {
            state.revset = None;
            state.selected_filter_index = None;
            UpdateResult::Handled(Some(Command::LoadRepo(None, LOAD_LIMIT, None)))
        },
        Action::FilterMine => UpdateResult::Handled(apply_quick_filter(state, "mine()")),
        Action::FilterTrunk => UpdateResult::Handled(apply_quick_filter(state, "trunk()")),
        Action::FilterConflicts => UpdateResult::Handled(apply_quick_filter(state, "conflicts()")),
        Action::FilterAll => UpdateResult::Handled(apply_quick_filter(state, "all()")),
        Action::FilterHeads => UpdateResult::Handled(apply_quick_filter(state, "heads(all())")),
        Action::FilterBookmarks => UpdateResult::Handled(apply_quick_filter(state, "bookmarks()")),
        Action::FilterImmutable => UpdateResult::Handled(apply_quick_filter(state, "immutable()")),
        Action::FilterMutable => UpdateResult::Handled(apply_quick_filter(state, "mutable()")),
        Action::FilterEmpty => UpdateResult::Handled(apply_quick_filter(state, "empty()")),
        Action::FilterDivergent => UpdateResult::Handled(apply_quick_filter(state, "divergent()")),
        Action::FilterMerges => UpdateResult::Handled(apply_quick_filter(state, "merges()")),
        Action::FilterTags => UpdateResult::Handled(apply_quick_filter(state, "tags()")),
        Action::FilterRemoteBookmarks => UpdateResult::Handled(
            apply_quick_filter(state, "remote_bookmarks()"),
        ),
        Action::FilterWorking => UpdateResult::Handled(
            apply_quick_filter(state, "working_copies()"),
        ),
        Action::FilterNext => {
            if state.mode == AppMode::FilterInput {
                let len = if state.is_selecting_presets {
                    state.preset_filters.len()
                } else {
                    state.recent_filters.len()
                };
                if len > 0 {
                    let next = match state.selected_filter_index {
                        Some(i) => (i + 1) % len,
                        None => 0,
                    };
                    choose_filter(state, next);
                }
            }
            UpdateResult::Handled(None)
        },
        Action::FilterPrev => {
            if state.mode == AppMode::FilterInput {
                let len = if state.is_selecting_presets {
                    state.preset_filters.len()
                } else {
                    state.recent_filters.len()
                };
                if len > 0 {
                    let next = match state.selected_filter_index {
                        Some(i) => if i == 0 {
                            len - 1
                        } else {
                            i - 1
                        },
                        None => len - 1,
                    };
                    choose_filter(state, next);
                }
            }
            UpdateResult::Handled(None)
        },
        Action::ToggleFilterSource => {
            if state.mode == AppMode::FilterInput {
                state.is_selecting_presets = !state.is_selecting_presets;
                state.selected_filter_index = Some(0);
                let len = if state.is_selecting_presets {
                    state.preset_filters.len()
                } else {
                    state.recent_filters.len()
                };
                if len > 0 {
                    choose_filter(state, 0);
                }
            }
            UpdateResult::Handled(None)
        },
        _ => UpdateResult::NotHandled,
    }
}

/// Chooses the filter at `k` of the current list (see `filter_chosen`).
fn choose_filter(state: &mut AppState, k: usize)
    requires
        k < filter_list(*old(state)).len(),
    ensures
        filter_chosen(*old(state), *final(state), k),
{
    state.selected_filter_index = Some(k);
    if state.input.is_some() {
        let text_area = if state.is_selecting_presets {
            AppTextArea::with_text(state.preset_filters[k].as_str())
        } else {
            AppTextArea::with_text(state.recent_filters[k].as_str())
        };
        state.input = Some(InputState { text_area });
    }
}

/// The first position of `f` in `v` (see `first_index`).
fn position_of(v: &Vec<String>, f: &String) -> (res: Option<usize>)
    ensures
        match res {
            Some(p) => first_index(views(v@), f@) == Some(p as int) && p < v@.len(),
            None => first_index(views(v@), f@) is None,
        },
{
    let ghost vs = views(v@);
    let n = v.len();
    for i in 0..n
        invariant
            n == v@.len(),
            vs == views(v@),
            forall|j: int| 0 <= j < i ==> #[trigger] vs[j] != f@,
    {
        if v[i] == *f {
            proof {
                let p = i as int;
                assert(vs[p] == f@);
                let c = choose|k: int|
                    0 <= k < vs.len() && vs[k] == f@ && forall|j: int| 0 <= j < k ==> vs[j] != f@;
                assert(c == p) by {
                    if c < p {
                        assert(vs[c] != f@);
                    } else if c > p {
                        assert(vs[p] != f@);
                    }
                }
            }
            return Some(i);
        }
    }
    assert forall|k: int| 0 <= k < vs.len() implies vs[k] != f@ by {
        assert(vs[k] != f@);
    }
    None
}

/// Moves `f` to the front of the recent filters (see `recent_after`).
fn remember_filter(recent: &mut Vec<String>, f: String)
    ensures
        views(final(recent)@) == recent_after(views(old(recent)@), f@),
{
    let ghost old_views = views(recent@);
    let ghost fv = f@;
    let pos = position_of(recent, &f);
    if let Some(p) = pos {
        recent.remove(p);
        assert(views(recent@) =~= old_views.remove(p as int));
    } else {
        assert(views(recent@) =~= old_views);
    }
    let ghost without = views(recent@);
    assert(without == match first_index(old_views, fv) {
        Some(p) => old_views.remove(p),
        None => old_views,
    });
    recent.insert(0, f);
    assert(views(recent@) =~= seq![fv] + without);
    recent.truncate(RECENT_FILTERS_MAX);
    assert(views(recent@) =~= recent_after(old_views, fv));
}

/// Filters the graph with the revset `filter`.
fn apply_quick_filter(state: &mut AppState, filter: &str) -> (res: Option<Command>)
    ensures
        *final(state) == (AppState { revset: final(state).revset, mode: AppMode::Normal, ..*old(state) }),
        final(state).revset matches Some(r) && r@ == filter@,
        res == Some(reload(final(state).revset)),
{
    state.revset = Some(owned(filter));
    state.mode = AppMode::Normal;
    Some(Command::LoadRepo(None, LOAD_LIMIT, state.revset.clone()))
}

} // verus!
