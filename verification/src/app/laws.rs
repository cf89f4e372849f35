//! Properties of the state machine that span several actions or hold of
//! every state.
use crate::app::action::{Action, UpdateResult};
use crate::app::command::Command;
use crate::app::command_palette::{command_table, description_hits, name_hits, name_matches, search_result};
use crate::app::features::filter::{first_index, recent_after, LOAD_LIMIT, RECENT_FILTERS_MAX};
use crate::app::features::navigation::views;
use crate::app::features::navigation::{navigation_step, new_index, selection_handled, with_selected};
use crate::app::features::ui::{wrap_next, wrap_prev};
use crate::app::keymap::lookup;
use crate::app::keys::{same_key, KeyInput};
use crate::app::features::navigation::with_file;
use crate::app::reducer::{
    base_step, batch_merged, derived, filter_handles, installed, load_more_step, main_step,
    menu_choice, menu_closed, navigation_handles, near_end, palette_choice, palette_closed,
    reduce_step, reloaded_selection, row_of, select_first_if_none, ticked, ui_handles, vcs_handles,
    with_load_mode,
};
use crate::app::state::{AppMode, AppState};
use vstd::prelude::*;

verus! {

/// Moving the selection down and then up returns to the same row, in a
/// list of rows that wraps around.
pub proof fn law_next_then_prev(i: usize, len: usize)
    requires
        i < len <= isize::MAX,
    ensures
        new_index(Some(new_index(Some(i), 1isize, len)), -1isize, len) == i,
{
    let j = new_index(Some(i), 1isize, len);
    assert(j == (i + 1) % (len as int));
    if i + 1 < len {
        vstd::arithmetic::div_mod::lemma_small_mod((i + 1) as nat, len as nat);
        vstd::arithmetic::div_mod::lemma_small_mod(i as nat, len as nat);
    } else {
        vstd::arithmetic::div_mod::lemma_mod_self_0(len as int);
        vstd::arithmetic::div_mod::lemma_fundamental_div_mod_converse(-1, len as int, -1, len - 1);
    }
}

/// Moving the selection lands on a row of a non-empty list.
pub proof fn law_new_index_in_range(current: Option<usize>, delta: isize, len: usize)
    requires
        len > 0,
    ensures
        new_index(current, delta, len) < len,
{
    if let Some(i) = current {
        vstd::arithmetic::div_mod::lemma_mod_bound((i as isize) + delta, len as int);
    }
}

/// Going to the next entry and then to the previous one, in a list that
/// wraps around (the palette, the context menu, the theme picker), returns
/// to the same entry; and the other way round.
pub proof fn law_wrap_inverse(i: usize, len: nat)
    requires
        i < len <= usize::MAX,
    ensures
        wrap_prev(wrap_next(i, len), len) == i,
        wrap_next(wrap_prev(i, len), len) == i,
{
    if i + 1 < len {
        vstd::arithmetic::div_mod::lemma_small_mod((i + 1) as nat, len);
    } else {
        vstd::arithmetic::div_mod::lemma_mod_self_0(len as int);
    }
    if i == 0 {
        vstd::arithmetic::div_mod::lemma_mod_self_0(len as int);
    } else {
        vstd::arithmetic::div_mod::lemma_small_mod(i as nat, len);
    }
}

/// Toggling the diff panel twice leaves it as shown or hidden as before.
pub proof fn law_toggle_diffs_twice(
    s0: AppState,
    s1: AppState,
    s2: AppState,
    now: i64,
    r1: UpdateResult,
    r2: UpdateResult,
)
    requires
        navigation_step(s0, Action::ToggleDiffs, now, s1, r1),
        navigation_step(s1, Action::ToggleDiffs, now, s2, r2),
    ensures
        s2.show_diffs == s0.show_diffs,
        s1.show_diffs != s0.show_diffs,
{
}

/// Entries without repeats.
pub open spec fn distinct(s: Seq<Seq<char>>) -> bool {
    forall|i: int, j: int| 0 <= i < j < s.len() ==> s[i] != s[j]
}

/// After a filter is used, it is the most recent one, it appears once, at
/// most ten are kept, and a list without repeats stays without repeats.
pub proof fn law_recent_filters(recent: Seq<Seq<char>>, f: Seq<char>)
    ensures
        recent_after(recent, f).len() >= 1,
        recent_after(recent, f)[0] == f,
        recent_after(recent, f).len() <= RECENT_FILTERS_MAX,
        distinct(recent) ==> distinct(recent_after(recent, f)),
{
    let without = match first_index(recent, f) {
        Some(p) => recent.remove(p),
        None => recent,
    };
    if distinct(recent) {
        match first_index(recent, f) {
            Some(p) => {
                lemma_first_index(recent, f);
                lemma_remove_distinct(recent, p);
            },
            None => {
                lemma_first_index(recent, f);
            },
        }
        lemma_cons_distinct(f, without);
        let all = seq![f] + without;
        if all.len() > RECENT_FILTERS_MAX {
            assert forall|i: int, j: int|
                0 <= i < j < all.subrange(0, RECENT_FILTERS_MAX as int).len() implies all.subrange(
                0,
                RECENT_FILTERS_MAX as int,
            )[i] != all.subrange(0, RECENT_FILTERS_MAX as int)[j] by {
                assert(all[i] != all[j]);
            }
        }
    }
}

/// Whether an entry differs from `x`.
pub open spec fn other_than(x: Seq<char>) -> spec_fn(Seq<char>) -> bool {
    |g: Seq<char>| g != x
}

/// The first `n` entries of `s`, or all of them when there are fewer.
pub open spec fn first_n(s: Seq<Seq<char>>, n: int) -> Seq<Seq<char>> {
    if s.len() <= n {
        s
    } else {
        s.take(n)
    }
}

proof fn lemma_filter_none(s: Seq<Seq<char>>, x: Seq<char>)
    requires
        forall|k: int| 0 <= k < s.len() ==> s[k] != x,
    ensures
        s.filter(other_than(x)) == s,
    decreases s.len(),
{
    reveal(Seq::filter);
    if s.len() > 0 {
        lemma_filter_none(s.drop_last(), x);
        assert(s.drop_last().push(s.last()) =~= s);
    }
}

proof fn lemma_filter_one(s: Seq<Seq<char>>, x: Seq<char>, p: int)
    requires
        0 <= p < s.len(),
        s[p] == x,
        forall|k: int| 0 <= k < s.len() && k != p ==> s[k] != x,
    ensures
        s.filter(other_than(x)) == s.remove(p),
    decreases s.len(),
{
    reveal(Seq::filter);
    if p == s.len() - 1 {
        lemma_filter_none(s.drop_last(), x);
        assert(s.remove(p) =~= s.drop_last());
    } else {
        lemma_filter_one(s.drop_last(), x, p);
        assert(s.drop_last().remove(p).push(s.last()) =~= s.remove(p));
    }
}

/// The recent filters, kept without repeats, after a filter `f` is used: `f`
/// first, then the others in their order without `f`, cut to ten.
pub proof fn law_recent_filters_order(recent: Seq<Seq<char>>, f: Seq<char>)
    requires
        distinct(recent),
    ensures
        recent_after(recent, f) == first_n(seq![f] + recent.filter(other_than(f)), RECENT_FILTERS_MAX as int),
{
    lemma_first_index(recent, f);
    match first_index(recent, f) {
        Some(p) => {
            assert forall|k: int| 0 <= k < recent.len() && k != p implies recent[k] != f by {
                if k < p {
                    assert(recent[k] != recent[p]);
                } else {
                    assert(recent[p] != recent[k]);
                }
            }
            lemma_filter_one(recent, f, p);
        },
        None => {
            lemma_filter_none(recent, f);
        },
    }
}

/// Applying a filter that is not blank after trimming: it becomes the revset
/// and the most recent filter (first, once, at most ten kept, the others in
/// their order), the filter input closes, and the graph is loaded anew for
/// it. Recent filters without repeats stay without repeats.
pub proof fn law_apply_filter(
    old: AppState,
    text: String,
    now: i64,
    new: AppState,
    res: Option<Command>,
)
    requires
        reduce_step(old, Action::ApplyFilter(text), now, new, res),
        crate::text::trimmed(text@).len() > 0,
        distinct(views(old.recent_filters@)),
    ensures
        ({
            let t = crate::text::trimmed(text@);
            &&& new.revset matches Some(r) && r@ == t
            &&& new.mode == AppMode::Normal
            &&& new.input is None
            &&& new.selected_filter_index is None
            &&& views(new.recent_filters@) == first_n(
                seq![t] + views(old.recent_filters@).filter(other_than(t)),
                RECENT_FILTERS_MAX as int,
            )
            &&& distinct(views(new.recent_filters@))
            &&& res == Some(Command::LoadRepo(None, LOAD_LIMIT, new.revset))
        }),
{
    let t = crate::text::trimmed(text@);
    assert(filter_handles(Action::ApplyFilter(text)));
    law_recent_filters_order(views(old.recent_filters@), t);
    law_recent_filters(views(old.recent_filters@), t);
}

proof fn lemma_first_index(s: Seq<Seq<char>>, x: Seq<char>)
    ensures
        match first_index(s, x) {
            Some(p) => 0 <= p < s.len() && s[p] == x,
            None => forall|k: int| 0 <= k < s.len() ==> s[k] != x,
        },
{
    if exists|k: int| 0 <= k < s.len() && s[k] == x {
        let k = choose|k: int| 0 <= k < s.len() && s[k] == x;
        lemma_least_index(s, x, k);
    }
}

proof fn lemma_least_index(s: Seq<Seq<char>>, x: Seq<char>, k: int)
    requires
        0 <= k < s.len(),
        s[k] == x,
    ensures
        exists|m: int| 0 <= m < s.len() && s[m] == x && forall|j: int| 0 <= j < m ==> s[j] != x,
    decreases k,
{
    if exists|j: int| 0 <= j < k && s[j] == x {
        let j = choose|j: int| 0 <= j < k && s[j] == x;
        lemma_least_index(s, x, j);
    } else {
        assert(forall|j: int| 0 <= j < k ==> s[j] != x);
    }
}

proof fn lemma_remove_distinct(s: Seq<Seq<char>>, p: int)
    requires
        distinct(s),
        0 <= p < s.len(),
    ensures
        distinct(s.remove(p)),
        forall|k: int| 0 <= k < s.remove(p).len() ==> s.remove(p)[k] != s[p],
{
    let t = s.remove(p);
    assert forall|k: int| 0 <= k < t.len() implies t[k] != s[p] by {
        if k < p {
            assert(t[k] == s[k]);
        } else {
            assert(t[k] == s[k + 1]);
        }
    }
    assert forall|i: int, j: int| 0 <= i < j < t.len() implies t[i] != t[j] by {
        let ii = if i < p {
            i
        } else {
            i + 1
        };
        let jj = if j < p {
            j
        } else {
            j + 1
        };
        assert(t[i] == s[ii]);
        assert(t[j] == s[jj]);
    }
}

proof fn lemma_cons_distinct(x: Seq<char>, s: Seq<Seq<char>>)
    requires
        distinct(s),
        forall|k: int| 0 <= k < s.len() ==> s[k] != x,
    ensures
        distinct(seq![x] + s),
{
    let all = seq![x] + s;
    assert forall|i: int, j: int| 0 <= i < j < all.len() implies all[i] != all[j] by {
        assert(all[j] == s[j - 1]);
        if i > 0 {
            assert(all[i] == s[i - 1]);
        }
    }
}

/// A diff that arrives for the selected commit is shown at once, and when
/// the selection lands on a row of that commit later, the diff is shown
/// from the cache without asking for it again.
pub proof fn law_loaded_diff_is_reused(
    s0: AppState,
    id: crate::domain::models::CommitId,
    d: String,
    now: i64,
    s1: AppState,
    k: usize,
    s2: AppState,
    c: Option<Command>,
)
    requires
        main_step(s0, Action::DiffLoaded(id, d), now, s1, None),
        with_selected(s1, Some(k)).selected_row() matches Some(row) && row.commit_id@ == id@,
        selection_handled(with_selected(s1, Some(k)), s2, c),
    ensures
        s2.log.current_diff matches Some(shown) && shown@ == d@,
        !s2.log.is_loading_diff,
        c is None,
{
    let m = with_selected(s1, Some(k));
    let row = m.selected_row()->0;
    assert(m.log.diff_cache == s1.log.diff_cache);
    assert(s1.log.diff_cache.lookup(id@) == Some(d@));
}

/// An operation that starts and then completes leaves as many running
/// tasks as before, and the interface stops waiting.
pub proof fn law_started_then_completed(
    s0: AppState,
    msg: String,
    result: Result<String, String>,
    now: i64,
    s1: AppState,
    s2: AppState,
    r1: Option<Command>,
    r2: Option<Command>,
)
    requires
        main_step(s0, Action::OperationStarted(msg), now, s1, r1),
        main_step(s1, Action::OperationCompleted(result), now, s2, r2),
    ensures
        s2.active_tasks@.len() == s0.active_tasks@.len(),
        s1.mode == AppMode::Loading,
        s2.mode != AppMode::Loading,
{
}

/// A palette search names only commands of the table, each at most once,
/// and an empty query names them all.
pub proof fn law_search_names_commands(query: Seq<char>)
    ensures
        forall|i: int|
            0 <= i < search_result(query).len() ==> #[trigger] search_result(query)[i]
                < command_table().len(),
        forall|i: int, j: int|
            0 <= i < j < search_result(query).len() ==> search_result(query)[i] != search_result(
                query,
            )[j],
        query.len() == 0 ==> search_result(query).len() == command_table().len(),
{
    let n = command_table().len() as int;
    if query.len() > 0 {
        let q = crate::text::lowercase(query);
        lemma_hits(q, n);
        let a = name_hits(q, n);
        let b = description_hits(q, n);
        let r = a + b;
        assert forall|i: int, j: int| 0 <= i < j < r.len() implies r[i] != r[j] by {
            if i < a.len() && j >= a.len() {
                assert(r[i] == a[i]);
                assert(r[j] == b[j - a.len()]);
                assert(name_matches(a[i] as int, q));
                assert(!name_matches(b[j - a.len()] as int, q));
            } else if j < a.len() {
                assert(r[i] == a[i] && r[j] == a[j]);
            } else {
                assert(r[i] == b[i - a.len()] && r[j] == b[j - a.len()]);
            }
        }
        assert forall|i: int| 0 <= i < r.len() implies #[trigger] r[i] < command_table().len() by {
            if i < a.len() {
                assert(r[i] == a[i]);
            } else {
                assert(r[i] == b[i - a.len()]);
            }
        }
    }
}

proof fn lemma_hits(q: Seq<char>, n: int)
    requires
        0 <= n <= command_table().len(),
    ensures
        forall|i: int| 0 <= i < name_hits(q, n).len() ==> #[trigger] name_hits(q, n)[i] < n,
        forall|i: int|
            0 <= i < name_hits(q, n).len() ==> name_matches(#[trigger] name_hits(q, n)[i] as int, q),
        forall|i: int, j: int|
            0 <= i < j < name_hits(q, n).len() ==> name_hits(q, n)[i] < name_hits(q, n)[j],
        forall|i: int|
            0 <= i < description_hits(q, n).len() ==> #[trigger] description_hits(q, n)[i] < n,
        forall|i: int|
            0 <= i < description_hits(q, n).len() ==> !name_matches(
                #[trigger] description_hits(q, n)[i] as int,
                q,
            ),
        forall|i: int, j: int|
            0 <= i < j < description_hits(q, n).len() ==> description_hits(q, n)[i]
                < description_hits(q, n)[j],
    decreases n,
{
    if n > 0 {
        lemma_hits(q, n - 1);
        let a = name_hits(q, n - 1);
        let b = description_hits(q, n - 1);
        if name_matches(n - 1, q) {
            assert(name_hits(q, n) == a.push((n - 1) as usize));
            assert forall|i: int| 0 <= i < a.len() + 1 implies #[trigger] a.push(
                (n - 1) as usize,
            )[i] < n && name_matches(a.push((n - 1) as usize)[i] as int, q) by {
                if i < a.len() {
                    assert(a.push((n - 1) as usize)[i] == a[i]);
                }
            }
        }
        if !name_matches(n - 1, q) && crate::app::command_palette::description_matches(n - 1, q) {
            assert(description_hits(q, n) == b.push((n - 1) as usize));
            assert forall|i: int| 0 <= i < b.len() + 1 implies #[trigger] b.push(
                (n - 1) as usize,
            )[i] < n && !name_matches(b.push((n - 1) as usize)[i] as int, q) by {
                if i < b.len() {
                    assert(b.push((n - 1) as usize)[i] == b[i]);
                }
            }
        }
    }
}

/// A binding added after the others decides its key: the key map's later
/// bindings override earlier ones for the same key.
pub proof fn law_later_binding_wins(entries: Seq<(KeyInput, Action)>, k: KeyInput, a: Action, pressed: KeyInput)
    requires
        same_key(k, pressed),
    ensures
        lookup(entries.push((k, a)), pressed) == Some(a),
{
    assert(entries.push((k, a)).last() == (k, a));
}

/// The parts of the state that its invariant speaks of are the same, but
/// that the marks on revisions may have been cleared.
pub open spec fn invariant_parts_same(a: AppState, b: AppState) -> bool {
    &&& (b.log.selected_ids@ == a.log.selected_ids@ || b.log.selected_ids@.len() == 0)
    &&& a.context_menu == b.context_menu
    &&& a.theme_selection == b.theme_selection
    &&& a.command_palette == b.command_palette
    &&& a.selected_filter_index == b.selected_filter_index
    &&& a.is_selecting_presets == b.is_selecting_presets
    &&& a.preset_filters@.len() == b.preset_filters@.len()
    &&& a.recent_filters@.len() == b.recent_filters@.len()
}

proof fn lemma_parts_keep_invariant(a: AppState, b: AppState)
    requires
        a.wf(),
        invariant_parts_same(a, b),
    ensures
        b.wf(),
{
}

proof fn lemma_file_scroll_parts(s: AppState)
    ensures
        invariant_parts_same(s, crate::app::features::navigation::file_scroll(s)),
{
}

proof fn lemma_selection_parts(old: AppState, new: AppState, c: Option<Command>)
    requires
        selection_handled(old, new, c),
    ensures
        invariant_parts_same(old, new),
{
}

#[verifier::rlimit(100)]
#[verifier::spinoff_prover]
proof fn lemma_navigation_parts(old: AppState, a: Action, now: i64, new: AppState, r: UpdateResult)
    requires
        navigation_step(old, a, now, new, r),
    ensures
        invariant_parts_same(old, new),
{
    match a {
        Action::SelectNext | Action::SelectPrev | Action::SelectIndex(_) => {
            let c = r->Handled_0;
            let mid = with_selected(old, match a {
                Action::SelectNext => Some(new_index(old.log.list_state.selected, 1isize, crate::app::features::navigation::graph_len(old) as usize)),
                Action::SelectPrev => Some(new_index(old.log.list_state.selected, -1isize, crate::app::features::navigation::graph_len(old) as usize)),
                Action::SelectIndex(i) => Some(i),
                _ => None,
            });
            lemma_selection_parts(mid, new, c);
        },
        Action::SelectFile(i) => {
            lemma_file_scroll_parts(with_file(old, Some(i)));
        },
        Action::SelectFileByPath(p) => {
            if let Some(row) = old.selected_row() {
                if let Some(k) = crate::app::features::navigation::file_with_path(row.changed_files@, p@) {
                    lemma_file_scroll_parts(with_file(old, Some(k as usize)));
                }
            }
        },
        Action::SelectNextFile => {
            if let Some(row) = old.selected_row() {
                lemma_file_scroll_parts(with_file(old, Some(crate::app::features::navigation::next_file(old.log.selected_file_index, row.changed_files@.len()))));
            }
        },
        Action::SelectPrevFile => {
            if let Some(i) = old.log.selected_file_index {
                lemma_file_scroll_parts(with_file(old, Some(if i > 0 { (i - 1) as usize } else { 0 })));
            }
        },
        Action::ToggleDiffs => {
            if !old.show_diffs {
                let mid = AppState { show_diffs: true, mode: AppMode::Diff, focused_panel: crate::app::state::Panel::Diff, diff_ratio: 40, ..old };
                lemma_file_scroll_parts(with_file(mid, Some(0)));
            }
        },
        Action::FocusDiff => {
            let mid = AppState { show_diffs: true, mode: AppMode::Diff, focused_panel: crate::app::state::Panel::Diff, ..old };
            lemma_file_scroll_parts(with_file(mid, Some(0)));
        },
        _ => {},
    }
}

proof fn lemma_vcs_keeps(old: AppState, a: Action, now: i64, new: AppState, r: UpdateResult)
    requires
        old.wf(),
        crate::app::features::vcs::actions::vcs_step(old, a, now, new, r),
    ensures
        new.wf(),
{
    match a {
        Action::PushIntent => {
            if let Some(row) = old.selected_row() {
                if row.bookmarks@.len() > 1 {
                    let m = new.context_menu->0;
                    assert(crate::app::features::ui::menu_items(m.actions@).len() == m.actions@.len());
                }
            }
        },
        _ => {},
    }
}

proof fn lemma_filter_keeps(old: AppState, a: Action, new: AppState, r: UpdateResult)
    requires
        old.wf(),
        crate::app::features::filter::filter_step(old, a, new, r),
    ensures
        new.wf(),
{
    match a {
        Action::FilterNext => {
            let len = crate::app::features::filter::filter_list(old).len();
            if old.mode == AppMode::FilterInput && len > 0 {
                if let Some(i) = old.selected_filter_index {
                    vstd::arithmetic::div_mod::lemma_mod_bound(i + 1, len as int);
                }
            }
        },
        _ => {},
    }
}

#[verifier::rlimit(100)]
#[verifier::spinoff_prover]
proof fn lemma_ui_keeps(old: AppState, a: Action, new: AppState, r: UpdateResult)
    requires
        old.wf(),
        crate::app::features::ui::ui_step(old, a, new, r),
    ensures
        new.wf(),
{
    match a {
        Action::CommandPaletteNext => {
            if let Some(cp) = old.command_palette {
                if cp.matches@.len() > 0 {
                    vstd::arithmetic::div_mod::lemma_mod_bound(cp.selected_index + 1, cp.matches@.len() as int);
                }
            }
        },
        Action::SelectThemeNext => {
            if let Some(t) = old.theme_selection {
                vstd::arithmetic::div_mod::lemma_mod_bound(t.selected_index + 1, t.themes@.len() as int);
            }
        },
        Action::SelectContextMenuNext => {
            if let Some(m) = old.context_menu {
                vstd::arithmetic::div_mod::lemma_mod_bound(m.selected_index + 1, m.actions@.len() as int);
            }
        },
        Action::OpenContextMenu(id, _) => {
            if let Some(id) = id {
                let m = new.context_menu->0;
                assert(crate::app::features::ui::menu_items(m.actions@).len() == m.actions@.len());
            }
        },
        _ => {},
    }
}

proof fn lemma_main_keeps(old: AppState, a: Action, now: i64, new: AppState, res: Option<Command>)
    requires
        old.wf(),
        main_step(old, a, now, new, res),
    ensures
        new.wf(),
{
    match a {
        Action::RepoLoaded(r) => {
            let (m1, m2) = choose|m1: AppState, m2: AppState|
                #[trigger] installed(old, *r, m1) && #[trigger] derived(with_load_mode(old, m1), m2)
                    && selection_handled(select_first_if_none(m2), new, res);
            lemma_selection_parts(select_first_if_none(m2), new, res);
        },
        Action::RepoReloadedBackground(r) => {
            let (m1, m2) = choose|m1: AppState, m2: AppState|
                #[trigger] installed(old, *r, m1) && #[trigger] derived(m1, m2) && reloaded_selection(old, m2, new, res);
            match old.selected_row() {
                Some(prev) => {
                    let nr = m2.repo->0;
                    match row_of(nr.graph@, prev.commit_id@) {
                        Some(k) => lemma_selection_parts(with_selected(m2, Some(k as usize)), new, res),
                        None => lemma_selection_parts(
                            AppState {
                                log: crate::app::state::LogState { current_diff: None, ..with_selected(m2, Some(0)).log },
                                ..with_selected(m2, Some(0))
                            },
                            new,
                            res,
                        ),
                    }
                },
                None => {
                    if m2.log.list_state.selected is None {
                        lemma_selection_parts(with_selected(m2, Some(0)), new, res);
                    }
                },
            }
        },
        Action::GraphBatchLoaded(b) => {
            if let Some(rp) = old.repo {
                let m1 = choose|m1: AppState| #[trigger] derived(m1, new) && batch_merged(old, rp, *b, m1);
            }
        },
        Action::Tick => {
            let m = choose|m: AppState| #[trigger] ticked(old, now, m) && if near_end(m) {
                load_more_step(m, new, res)
            } else {
                new == m && res is None
            };
        },
        _ => {},
    }
}

proof fn lemma_base_keeps(old: AppState, a: Action, now: i64, new: AppState, res: Option<Command>)
    requires
        old.wf(),
        base_step(old, a, now, new, res),
    ensures
        new.wf(),
{
    if navigation_handles(a) {
        lemma_navigation_parts(old, a, now, new, UpdateResult::Handled(res));
        lemma_parts_keep_invariant(old, new);
    } else if vcs_handles(a) {
        lemma_vcs_keeps(old, a, now, new, UpdateResult::Handled(res));
    } else if filter_handles(a) {
        lemma_filter_keeps(old, a, new, UpdateResult::Handled(res));
    } else if ui_handles(old, a) {
        lemma_ui_keeps(old, a, new, UpdateResult::Handled(res));
    } else {
        lemma_main_keeps(old, a, now, new, res);
    }
}

/// Every action keeps the state's invariant: open menus and pickers keep an
/// entry highlighted, whatever the action and whatever it runs.
pub proof fn law_update_keeps_invariant(old: AppState, a: Action, now: i64, new: AppState, res: Option<Command>)
    requires
        old.wf(),
        reduce_step(old, a, now, new, res),
    ensures
        new.wf(),
{
    let s1 = match menu_choice(old, a) {
        Some(_) => menu_closed(old),
        None => old,
    };
    let b = match menu_choice(old, a) {
        Some(b) => b,
        None => a,
    };
    assert(s1.wf());
    match palette_choice(s1, b) {
        Some(k) => {
            assert(palette_closed(s1).wf());
            lemma_base_keeps(palette_closed(s1), command_table()[k].2, now, new, res);
        },
        None => lemma_base_keeps(s1, b, now, new, res),
    }
}

/// Escape leads back to the body from anywhere: every pop-up and input is
/// closed, the error shown is dismissed, the mode is the normal view, and
/// nothing is run; the loaded graph and the selection stay as they were.
pub proof fn law_cancel_returns_to_body(old: AppState, now: i64, new: AppState, res: Option<Command>)
    requires
        reduce_step(old, Action::CancelMode, now, new, res),
    ensures
        new.mode == AppMode::Normal,
        new.last_error is None,
        new.input is None,
        new.command_palette is None,
        new.context_menu is None,
        new.theme_selection is None,
        new.evolog_state is None,
        new.operation_log_state is None,
        new.rebase_sources@.len() == 0,
        res is None,
        new.repo == old.repo,
        new.log == old.log,
{
    assert(menu_choice(old, Action::CancelMode) is None);
    assert(palette_choice(old, Action::CancelMode) is None);
    assert(!navigation_handles(Action::CancelMode));
    assert(!vcs_handles(Action::CancelMode));
    assert(!filter_handles(Action::CancelMode));
    assert(ui_handles(old, Action::CancelMode));
}

} // verus!
