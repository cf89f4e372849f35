//! The behaviour that the key table and the manual promise, stated key by
//! key and command by command over every state.
use crate::app::action::Action;
use crate::app::command::Command;
use crate::app::features::filter::LOAD_LIMIT;
use crate::app::reducer::{filter_handles, navigation_handles, reduce_step, vcs_handles};
use crate::domain::models::CommitId;
use crate::app::input::event_action;
use crate::app::keymap::{key_action, lookup, vim_diff_mode, vim_global};
use crate::app::keys::{
    plain_key, same_key, InputEvent, KeyCode, KeyInput, KeyPress, MouseEventKind, MouseInput, Size,
};
use crate::app::features::navigation::{first_prefixed, graph_len, last_prefixed, new_index};
use crate::text::{seq_starts_with, text_lines};
use crate::app::state::{AppMode, AppState};
use crate::app::ui::Rect;
use vstd::prelude::*;

verus! {

proof fn lemma_lookup_same_key(entries: Seq<(KeyInput, Action)>, a: KeyInput, b: KeyInput)
    requires
        same_key(a, b),
    ensures
        lookup(entries, a) == lookup(entries, b),
    decreases entries.len(),
{
    if entries.len() > 0 {
        lemma_lookup_same_key(entries.drop_last(), a, b);
    }
}

/// The key `k` is the plain character key `c` (in either case form of the
/// event that the terminal reports).
pub open spec fn is_char(k: KeyInput, c: char) -> bool {
    same_key(k, plain_key(KeyCode::Char(c)))
}

/// The key `k` is the plain key `code`.
pub open spec fn is_key(k: KeyInput, code: KeyCode) -> bool {
    same_key(k, plain_key(code))
}

/// The global bindings of the vim profile, key by key as the manual lists
/// them.
#[verifier::rlimit(60)]
#[verifier::spinoff_prover]
pub proof fn law_vim_global_keys(k: KeyInput)
    ensures
        is_char(k, 'j') || is_key(k, KeyCode::Down) ==> lookup(vim_global(), k) == Some(Action::SelectNext),
        is_char(k, 'k') || is_key(k, KeyCode::Up) ==> lookup(vim_global(), k) == Some(Action::SelectPrev),
        is_key(k, KeyCode::Enter) ==> lookup(vim_global(), k) == Some(Action::ToggleDiffs),
        is_key(k, KeyCode::Tab) || is_char(k, 'l') ==> lookup(vim_global(), k) == Some(Action::FocusDiff),
        is_key(k, KeyCode::Esc) ==> lookup(vim_global(), k) == Some(Action::CancelMode),
        is_char(k, 'q') ==> lookup(vim_global(), k) == Some(Action::Quit),
        is_char(k, 's') ==> lookup(vim_global(), k) == Some(Action::SnapshotWorkingCopy),
        is_char(k, 'e') ==> lookup(vim_global(), k) == Some(Action::EditRevision(None)),
        is_char(k, 'n') ==> lookup(vim_global(), k) == Some(Action::NewRevision(None)),
        is_char(k, 'd') ==> lookup(vim_global(), k) == Some(Action::DescribeRevisionIntent),
        is_char(k, 'a') ==> lookup(vim_global(), k) == Some(Action::AbandonRevision(None)),
        is_char(k, 'S') ==> lookup(vim_global(), k) == Some(Action::EnterSquashMode),
        is_char(k, 'b') ==> lookup(vim_global(), k) == Some(Action::SetBookmarkIntent),
        is_char(k, 'B') ==> lookup(vim_global(), k) == Some(Action::DeleteBookmarkIntent),
        is_char(k, 'u') ==> lookup(vim_global(), k) == Some(Action::Undo),
        is_char(k, 'U') ==> lookup(vim_global(), k) == Some(Action::Redo),
        is_char(k, 'f') ==> lookup(vim_global(), k) == Some(Action::Fetch),
        is_char(k, 'p') ==> lookup(vim_global(), k) == Some(Action::PushIntent),
        is_char(k, '/') ==> lookup(vim_global(), k) == Some(Action::EnterFilterMode),
        is_char(k, 'm') ==> lookup(vim_global(), k) == Some(Action::FilterMine),
        is_char(k, 't') ==> lookup(vim_global(), k) == Some(Action::FilterTrunk),
        is_char(k, 'c') ==> lookup(vim_global(), k) == Some(Action::FilterConflicts),
        is_key(k, KeyCode::PageDown) ==> lookup(vim_global(), k) == Some(Action::ScrollDiffDown(10)),
        is_key(k, KeyCode::PageUp) ==> lookup(vim_global(), k) == Some(Action::ScrollDiffUp(10)),
        is_char(k, '[') ==> lookup(vim_global(), k) == Some(Action::PrevHunk),
        is_char(k, ']') ==> lookup(vim_global(), k) == Some(Action::NextHunk),
{
    let g = vim_global();
    reveal_with_fuel(lookup, 37);
    assert(lookup(g, plain_key(KeyCode::Char('j'))) == Some(Action::SelectNext));
    assert(lookup(g, plain_key(KeyCode::Down)) == Some(Action::SelectNext));
    assert(lookup(g, plain_key(KeyCode::Char('k'))) == Some(Action::SelectPrev));
    assert(lookup(g, plain_key(KeyCode::Up)) == Some(Action::SelectPrev));
    assert(lookup(g, plain_key(KeyCode::Enter)) == Some(Action::ToggleDiffs));
    assert(lookup(g, plain_key(KeyCode::Tab)) == Some(Action::FocusDiff));
    assert(lookup(g, plain_key(KeyCode::Char('l'))) == Some(Action::FocusDiff));
    assert(lookup(g, plain_key(KeyCode::Esc)) == Some(Action::CancelMode));
    assert(lookup(g, plain_key(KeyCode::Char('q'))) == Some(Action::Quit));
    assert(lookup(g, plain_key(KeyCode::Char('s'))) == Some(Action::SnapshotWorkingCopy));
    assert(lookup(g, plain_key(KeyCode::Char('e'))) == Some(Action::EditRevision(None)));
    assert(lookup(g, plain_key(KeyCode::Char('n'))) == Some(Action::NewRevision(None)));
    assert(lookup(g, plain_key(KeyCode::Char('d'))) == Some(Action::DescribeRevisionIntent));
    assert(lookup(g, plain_key(KeyCode::Char('a'))) == Some(Action::AbandonRevision(None)));
    assert(lookup(g, plain_key(KeyCode::Char('S'))) == Some(Action::EnterSquashMode));
    assert(lookup(g, plain_key(KeyCode::Char('b'))) == Some(Action::SetBookmarkIntent));
    assert(lookup(g, plain_key(KeyCode::Char('B'))) == Some(Action::DeleteBookmarkIntent));
    assert(lookup(g, plain_key(KeyCode::Char('u'))) == Some(Action::Undo));
    assert(lookup(g, plain_key(KeyCode::Char('U'))) == Some(Action::Redo));
    assert(lookup(g, plain_key(KeyCode::Char('f'))) == Some(Action::Fetch));
    assert(lookup(g, plain_key(KeyCode::Char('p'))) == Some(Action::PushIntent));
    assert(lookup(g, plain_key(KeyCode::Char('/'))) == Some(Action::EnterFilterMode));
    assert(lookup(g, plain_key(KeyCode::Char('m'))) == Some(Action::FilterMine));
    assert(lookup(g, plain_key(KeyCode::Char('t'))) == Some(Action::FilterTrunk));
    assert(lookup(g, plain_key(KeyCode::Char('c'))) == Some(Action::FilterConflicts));
    assert(lookup(g, plain_key(KeyCode::PageDown)) == Some(Action::ScrollDiffDown(10)));
    assert(lookup(g, plain_key(KeyCode::PageUp)) == Some(Action::ScrollDiffUp(10)));
    assert(lookup(g, plain_key(KeyCode::Char('['))) == Some(Action::PrevHunk));
    assert(lookup(g, plain_key(KeyCode::Char(']'))) == Some(Action::NextHunk));
    let chars = seq!['j', 'k', 'l', 'q', 's', 'e', 'n', 'd', 'a', 'S', 'b', 'B', 'u', 'U', 'f', 'p', '/', 'm', 't', 'c', '[', ']'];
    assert forall|i: int| 0 <= i < chars.len() && #[trigger] is_char(k, chars[i]) implies lookup(g, k) == lookup(g, plain_key(KeyCode::Char(chars[i]))) by {
        lemma_lookup_same_key(g, k, plain_key(KeyCode::Char(chars[i])));
    }
    let codes = seq![KeyCode::Down, KeyCode::Up, KeyCode::Enter, KeyCode::Tab, KeyCode::Esc, KeyCode::PageDown, KeyCode::PageUp];
    assert forall|i: int| 0 <= i < codes.len() && #[trigger] is_key(k, codes[i]) implies lookup(g, k) == lookup(g, plain_key(codes[i])) by {
        lemma_lookup_same_key(g, k, plain_key(codes[i]));
    }
    assert(chars[0] == 'j' && chars[1] == 'k' && chars[2] == 'l' && chars[3] == 'q' && chars[4] == 's' && chars[5] == 'e' && chars[6] == 'n' && chars[7] == 'd' && chars[8] == 'a' && chars[9] == 'S' && chars[10] == 'b' && chars[11] == 'B' && chars[12] == 'u' && chars[13] == 'U' && chars[14] == 'f' && chars[15] == 'p' && chars[16] == '/' && chars[17] == 'm' && chars[18] == 't' && chars[19] == 'c' && chars[20] == '[' && chars[21] == ']');
    assert(codes[0] == KeyCode::Down && codes[1] == KeyCode::Up && codes[2] == KeyCode::Enter && codes[3] == KeyCode::Tab && codes[4] == KeyCode::Esc && codes[5] == KeyCode::PageDown && codes[6] == KeyCode::PageUp);
}

/// The bindings of the vim profile for the diff panel, key by key as the
/// manual lists them.
#[verifier::spinoff_prover]
pub proof fn law_vim_diff_keys(k: KeyInput)
    ensures
        is_char(k, 'j') || is_key(k, KeyCode::Down) ==> lookup(vim_diff_mode(), k) == Some(Action::SelectNextFile),
        is_char(k, 'k') || is_key(k, KeyCode::Up) ==> lookup(vim_diff_mode(), k) == Some(Action::SelectPrevFile),
        is_char(k, 'h') || is_key(k, KeyCode::Tab) ==> lookup(vim_diff_mode(), k) == Some(Action::FocusGraph),
        is_key(k, KeyCode::PageDown) ==> lookup(vim_diff_mode(), k) == Some(Action::ScrollDiffDown(10)),
        is_key(k, KeyCode::PageUp) ==> lookup(vim_diff_mode(), k) == Some(Action::ScrollDiffUp(10)),
        is_char(k, '[') ==> lookup(vim_diff_mode(), k) == Some(Action::PrevHunk),
        is_char(k, ']') ==> lookup(vim_diff_mode(), k) == Some(Action::NextHunk),
        is_key(k, KeyCode::Esc) ==> lookup(vim_diff_mode(), k) == Some(Action::CancelMode),
{
    let g = vim_diff_mode();
    reveal_with_fuel(lookup, 12);
    assert(lookup(g, plain_key(KeyCode::Char('j'))) == Some(Action::SelectNextFile));
    assert(lookup(g, plain_key(KeyCode::Down)) == Some(Action::SelectNextFile));
    assert(lookup(g, plain_key(KeyCode::Char('k'))) == Some(Action::SelectPrevFile));
    assert(lookup(g, plain_key(KeyCode::Up)) == Some(Action::SelectPrevFile));
    assert(lookup(g, plain_key(KeyCode::Char('h'))) == Some(Action::FocusGraph));
    assert(lookup(g, plain_key(KeyCode::Tab)) == Some(Action::FocusGraph));
    assert(lookup(g, plain_key(KeyCode::PageDown)) == Some(Action::ScrollDiffDown(10)));
    assert(lookup(g, plain_key(KeyCode::PageUp)) == Some(Action::ScrollDiffUp(10)));
    assert(lookup(g, plain_key(KeyCode::Char('['))) == Some(Action::PrevHunk));
    assert(lookup(g, plain_key(KeyCode::Char(']'))) == Some(Action::NextHunk));
    assert(lookup(g, plain_key(KeyCode::Esc)) == Some(Action::CancelMode));
    let chars = seq!['j', 'k', 'h', '[', ']'];
    assert forall|i: int| 0 <= i < chars.len() && #[trigger] is_char(k, chars[i]) implies lookup(g, k) == lookup(g, plain_key(KeyCode::Char(chars[i]))) by {
        lemma_lookup_same_key(g, k, plain_key(KeyCode::Char(chars[i])));
    }
    let codes = seq![KeyCode::Down, KeyCode::Up, KeyCode::Tab, KeyCode::PageDown, KeyCode::PageUp, KeyCode::Esc];
    assert forall|i: int| 0 <= i < codes.len() && #[trigger] is_key(k, codes[i]) implies lookup(g, k) == lookup(g, plain_key(codes[i])) by {
        lemma_lookup_same_key(g, k, plain_key(codes[i]));
    }
    assert(chars[0] == 'j' && chars[1] == 'k' && chars[2] == 'h' && chars[3] == '[' && chars[4] == ']');
    assert(codes[0] == KeyCode::Down && codes[1] == KeyCode::Up && codes[2] == KeyCode::Tab && codes[3] == KeyCode::PageDown && codes[4] == KeyCode::PageUp && codes[5] == KeyCode::Esc);
}

/// With the vim profile's bindings (the default key configuration, before
/// custom bindings), a key pressed in the revision graph asks for the action
/// the manual gives it: `u` undoes and `U` redoes, `e` edits and `n` creates
/// a child of the selected revision, `t`, `m` and `c` are the quick filters,
/// `j` and `k` move the selection, `]` and `[` jump between hunks.
pub proof fn law_vim_keys_in_graph(
    s: AppState,
    key: KeyPress,
    size: Size,
    g: Rect,
    d: Rect,
    now: i64,
    res: Option<Action>,
)
    requires
        s.mode == AppMode::Normal,
        s.keymap.global@ == vim_global(),
        event_action(InputEvent::Key(key), s, size, g, d, now, res),
    ensures
        is_char(key.key, 'u') ==> res == Some(Action::Undo),
        is_char(key.key, 'U') ==> res == Some(Action::Redo),
        is_char(key.key, 'e') ==> res == Some(Action::EditRevision(None)),
        is_char(key.key, 'n') ==> res == Some(Action::NewRevision(None)),
        is_char(key.key, 'a') ==> res == Some(Action::AbandonRevision(None)),
        is_char(key.key, 's') ==> res == Some(Action::SnapshotWorkingCopy),
        is_char(key.key, 't') ==> res == Some(Action::FilterTrunk),
        is_char(key.key, 'm') ==> res == Some(Action::FilterMine),
        is_char(key.key, 'c') ==> res == Some(Action::FilterConflicts),
        is_char(key.key, 'j') || is_key(key.key, KeyCode::Down) ==> res == Some(Action::SelectNext),
        is_char(key.key, 'k') || is_key(key.key, KeyCode::Up) ==> res == Some(Action::SelectPrev),
        is_char(key.key, ']') ==> res == Some(Action::NextHunk),
        is_char(key.key, '[') ==> res == Some(Action::PrevHunk),
        is_char(key.key, 'q') ==> res == Some(Action::Quit),
        is_char(key.key, 'f') ==> res == Some(Action::Fetch),
        is_char(key.key, 'p') ==> res == Some(Action::PushIntent),
{
    law_vim_global_keys(key.key);
    let k = key.key;
    if key.key.kind != crate::app::keys::KeyEventKind::Release {
        let b = choose|b: Option<Action>|
            #[trigger] key_action(s.keymap, key, s, b) && res == match b {
                Some(a) => Some(a),
                None => None::<Action>,
            };
        assert(key_action(s.keymap, key, s, b));
    }
}

/// With the vim profile's bindings, a key pressed in the diff panel asks for
/// the action the manual gives it there, unless it resolves a conflict:
/// `j` and `k` select the next and previous file, `h` focuses the graph,
/// `]` and `[` jump between hunks, and page keys scroll by ten lines.
pub proof fn law_vim_keys_in_diff(
    s: AppState,
    key: KeyPress,
    size: Size,
    g: Rect,
    d: Rect,
    now: i64,
    res: Option<Action>,
)
    requires
        s.mode == AppMode::Diff,
        s.keymap.diff_mode@ == vim_diff_mode(),
        event_action(InputEvent::Key(key), s, size, g, d, now, res),
    ensures
        is_char(key.key, 'j') || is_key(key.key, KeyCode::Down) ==> res == Some(Action::SelectNextFile),
        is_char(key.key, 'k') || is_key(key.key, KeyCode::Up) ==> res == Some(Action::SelectPrevFile),
        is_char(key.key, 'h') ==> res == Some(Action::FocusGraph),
        is_char(key.key, ']') ==> res == Some(Action::NextHunk),
        is_char(key.key, '[') ==> res == Some(Action::PrevHunk),
        is_key(key.key, KeyCode::PageDown) ==> res == Some(Action::ScrollDiffDown(10)),
        is_key(key.key, KeyCode::PageUp) ==> res == Some(Action::ScrollDiffUp(10)),
{
    law_vim_diff_keys(key.key);
    if key.key.kind != crate::app::keys::KeyEventKind::Release && !(crate::app::input::resolve_key(key.key.code)
        && crate::app::input::resolve_selected(s) is Some) {
        let b = choose|b: Option<Action>|
            #[trigger] key_action(s.keymap, key, s, b) && res == match b {
                Some(a) => Some(a),
                None => None::<Action>,
            };
        assert(key_action(s.keymap, key, s, b));
    }
}

/// The commit of the selected row, if a row is selected.
pub open spec fn selected_commit(s: AppState) -> Option<CommitId> {
    match s.selected_row() {
        Some(row) => Some(row.commit_id),
        None => None,
    }
}

/// Each revision intent asks `jj` for its own operation, on the revision it
/// names or else on the selected one, and leaves the state as it was:
/// editing asks for `jj edit`, a new child for `jj new`, splitting for
/// `jj split`; with no revision to act on nothing is asked. Snapshot, undo,
/// redo and fetch ask for their own commands.
pub proof fn law_revision_intents(old: AppState, a: Action, now: i64, new: AppState, res: Option<Command>)
    requires
        reduce_step(old, a, now, new, res),
    ensures
        a matches Action::EditRevision(given) ==> new == old && res == match (
        if given is Some {
            given
        } else {
            selected_commit(old)
        }) {
            Some(id) => Some(Command::Edit(id)),
            None => None,
        },
        a matches Action::NewRevision(given) ==> new == old && res == match (
        if given is Some {
            given
        } else {
            selected_commit(old)
        }) {
            Some(id) => Some(Command::New(id)),
            None => None,
        },
        a matches Action::SplitRevision(given) ==> new == old && res == match (
        if given is Some {
            given
        } else {
            selected_commit(old)
        }) {
            Some(id) => Some(Command::Split(id)),
            None => None,
        },
        a is SnapshotWorkingCopy ==> new == old && res == Some(Command::Snapshot),
        a is Undo ==> new == old && res == Some(Command::Undo),
        a is Redo ==> new == old && res == Some(Command::Redo),
        a is Fetch ==> new == old && res == Some(Command::Fetch),
{
    if a is EditRevision || a is NewRevision || a is SplitRevision || a is SnapshotWorkingCopy || a is Undo
        || a is Redo || a is Fetch {
        assert(vcs_handles(a));
        assert(!navigation_handles(a));
    }
}

/// A quick filter is not one of the others: the action names it.
pub open spec fn is_quick_filter(a: Action) -> bool {
    ||| a is FilterMine
    ||| a is FilterTrunk
    ||| a is FilterConflicts
    ||| a is FilterAll
    ||| a is FilterHeads
    ||| a is FilterBookmarks
    ||| a is FilterImmutable
    ||| a is FilterMutable
    ||| a is FilterEmpty
    ||| a is FilterDivergent
    ||| a is FilterMerges
    ||| a is FilterTags
    ||| a is FilterRemoteBookmarks
    ||| a is FilterWorking
}

/// Each quick filter shows the revset it is named after, returns to the
/// graph and reloads it with that revset: `t` (`FilterTrunk`) shows
/// `trunk()`, `m` (`FilterMine`) shows `mine()`, `c` (`FilterConflicts`)
/// shows `conflicts()`, and so on.
pub proof fn law_quick_filters(old: AppState, a: Action, now: i64, new: AppState, res: Option<Command>)
    requires
        reduce_step(old, a, now, new, res),
        is_quick_filter(a),
    ensures
        new.mode == AppMode::Normal,
        new.revset is Some,
        res == Some(Command::LoadRepo(None, LOAD_LIMIT, new.revset)),
        a is FilterMine ==> new.revset->0@ == "mine()"@,
        a is FilterTrunk ==> new.revset->0@ == "trunk()"@,
        a is FilterConflicts ==> new.revset->0@ == "conflicts()"@,
        a is FilterAll ==> new.revset->0@ == "all()"@,
        a is FilterHeads ==> new.revset->0@ == "heads(all())"@,
        a is FilterBookmarks ==> new.revset->0@ == "bookmarks()"@,
        a is FilterImmutable ==> new.revset->0@ == "immutable()"@,
        a is FilterMutable ==> new.revset->0@ == "mutable()"@,
        a is FilterEmpty ==> new.revset->0@ == "empty()"@,
        a is FilterDivergent ==> new.revset->0@ == "divergent()"@,
        a is FilterMerges ==> new.revset->0@ == "merges()"@,
        a is FilterTags ==> new.revset->0@ == "tags()"@,
        a is FilterRemoteBookmarks ==> new.revset->0@ == "remote_bookmarks()"@,
        a is FilterWorking ==> new.revset->0@ == "working_copies()"@,
{
    assert(filter_handles(a));
    assert(!navigation_handles(a) && !vcs_handles(a));
}

/// The length and first character of the revset of a quick filter, which
/// tell the quick filters' revsets apart.
spec fn quick_signature(a: Action) -> (nat, char) {
    match a {
        Action::FilterMine => (6, 'm'),
        Action::FilterTrunk => (7, 't'),
        Action::FilterConflicts => (11, 'c'),
        Action::FilterAll => (5, 'a'),
        Action::FilterHeads => (12, 'h'),
        Action::FilterBookmarks => (11, 'b'),
        Action::FilterImmutable => (11, 'i'),
        Action::FilterMutable => (9, 'm'),
        Action::FilterEmpty => (7, 'e'),
        Action::FilterDivergent => (11, 'd'),
        Action::FilterMerges => (8, 'm'),
        Action::FilterTags => (6, 't'),
        Action::FilterRemoteBookmarks => (18, 'r'),
        _ => (16, 'w'),
    }
}

proof fn lemma_quick_signature(old: AppState, a: Action, now: i64, new: AppState, res: Option<Command>)
    requires
        reduce_step(old, a, now, new, res),
        is_quick_filter(a),
    ensures
        new.revset->0@.len() == quick_signature(a).0,
        new.revset->0@.len() > 0,
        new.revset->0@[0] == quick_signature(a).1,
{
    law_quick_filters(old, a, now, new, res);
    let v = new.revset->0@;
    match a {
        Action::FilterMine => { reveal_strlit("mine()"); },
        Action::FilterTrunk => { reveal_strlit("trunk()"); },
        Action::FilterConflicts => { reveal_strlit("conflicts()"); },
        Action::FilterAll => { reveal_strlit("all()"); },
        Action::FilterHeads => { reveal_strlit("heads(all())"); },
        Action::FilterBookmarks => { reveal_strlit("bookmarks()"); },
        Action::FilterImmutable => { reveal_strlit("immutable()"); },
        Action::FilterMutable => { reveal_strlit("mutable()"); },
        Action::FilterEmpty => { reveal_strlit("empty()"); },
        Action::FilterDivergent => { reveal_strlit("divergent()"); },
        Action::FilterMerges => { reveal_strlit("merges()"); },
        Action::FilterTags => { reveal_strlit("tags()"); },
        Action::FilterRemoteBookmarks => { reveal_strlit("remote_bookmarks()"); },
        _ => { reveal_strlit("working_copies()"); },
    }
}

/// Two different quick filters never show the same revset.
pub proof fn law_quick_filters_differ(
    s1: AppState,
    a1: Action,
    n1: AppState,
    r1: Option<Command>,
    s2: AppState,
    a2: Action,
    n2: AppState,
    r2: Option<Command>,
    now: i64,
)
    requires
        reduce_step(s1, a1, now, n1, r1),
        reduce_step(s2, a2, now, n2, r2),
        is_quick_filter(a1),
        is_quick_filter(a2),
        a1 != a2,
    ensures
        n1.revset->0@ != n2.revset->0@,
{
    lemma_quick_signature(s1, a1, now, n1, r1);
    lemma_quick_signature(s2, a2, now, n2, r2);
    assert(quick_signature(a1) != quick_signature(a2));
}

/// The column `col` lies within the columns of the panel `p`.
pub open spec fn over_columns(col: u16, p: Rect) -> bool {
    p.x <= col && col < p.x + p.width
}

/// Scrolling in the revision graph's mode: over the shown diff panel the
/// wheel scrolls the diff by a line, up or down; anywhere else scrolling up
/// selects the previous revision and scrolling down the next one.
pub proof fn law_scroll_wheel(
    s: AppState,
    m: MouseInput,
    size: Size,
    g: Rect,
    d: Rect,
    now: i64,
    res: Option<Action>,
)
    requires
        s.mode == AppMode::Normal,
        event_action(InputEvent::Mouse(m), s, size, g, d, now, res),
    ensures
        m.kind == MouseEventKind::ScrollUp ==> res == if s.show_diffs && over_columns(m.column, d) {
            Some(Action::ScrollDiffUp(1))
        } else {
            Some(Action::SelectPrev)
        },
        m.kind == MouseEventKind::ScrollDown ==> res == if s.show_diffs && over_columns(m.column, d) {
            Some(Action::ScrollDiffDown(1))
        } else {
            Some(Action::SelectNext)
        },
{
}

proof fn lemma_prev_then_next(i: usize, len: usize)
    requires
        i < len <= isize::MAX,
    ensures
        new_index(Some(new_index(Some(i), -1isize, len)), 1isize, len) == i,
        new_index(Some(i), -1isize, len) < len,
{
    if i > 0 {
        vstd::arithmetic::div_mod::lemma_small_mod((i - 1) as nat, len as nat);
        vstd::arithmetic::div_mod::lemma_small_mod(i as nat, len as nat);
    } else {
        vstd::arithmetic::div_mod::lemma_fundamental_div_mod_converse(-1, len as int, -1, len - 1);
        vstd::arithmetic::div_mod::lemma_mod_self_0(len as int);
    }
}

/// Scrolling up and then down over the revision graph (diffs hidden) brings
/// the selection back to the revision it was on.
#[verifier::rlimit(100)]
#[verifier::spinoff_prover]
pub proof fn law_scroll_up_then_down(
    s0: AppState,
    up: MouseInput,
    down: MouseInput,
    size: Size,
    g: Rect,
    d: Rect,
    now: i64,
    a1: Option<Action>,
    s1: AppState,
    c1: Option<Command>,
    a2: Option<Action>,
    s2: AppState,
    c2: Option<Command>,
)
    requires
        s0.mode == AppMode::Normal,
        !s0.show_diffs,
        s0.log.list_state.selected matches Some(i) && i < graph_len(s0),
        graph_len(s0) <= isize::MAX,
        up.kind == MouseEventKind::ScrollUp,
        down.kind == MouseEventKind::ScrollDown,
        event_action(InputEvent::Mouse(up), s0, size, g, d, now, a1),
        a1 matches Some(a) && reduce_step(s0, a, now, s1, c1),
        event_action(InputEvent::Mouse(down), s1, size, g, d, now, a2),
        a2 matches Some(a) && reduce_step(s1, a, now, s2, c2),
    ensures
        s2.log.list_state.selected == s0.log.list_state.selected,
{
    let i = s0.log.list_state.selected->0;
    let len = graph_len(s0) as usize;
    law_scroll_wheel(s0, up, size, g, d, now, a1);
    assert(navigation_handles(Action::SelectPrev));
    lemma_prev_then_next(i, len);
    assert(s1.mode == AppMode::Normal && !s1.show_diffs && graph_len(s1) == graph_len(s0));
    assert(s1.log.list_state.selected == Some(new_index(Some(i), -1isize, len)));
    law_scroll_wheel(s1, down, size, g, d, now, a2);
    assert(navigation_handles(Action::SelectNext));
}

/// The diff line `l` is a hunk header: it begins with `@@`.
pub open spec fn hunk_header(l: Seq<char>) -> bool {
    l.len() >= 2 && l[0] == '@' && l[1] == '@'
}

proof fn lemma_header(l: Seq<char>)
    ensures
        seq_starts_with(l, "@@"@) == hunk_header(l),
{
    reveal_strlit("@@");
    if hunk_header(l) {
        assert(l.subrange(0, 2) =~= "@@"@);
    }
    if seq_starts_with(l, "@@"@) {
        assert(l.subrange(0, 2)[0] == l[0]);
        assert(l.subrange(0, 2)[1] == l[1]);
    }
}

proof fn lemma_first_header(ls: Seq<Seq<char>>, from: int)
    requires
        0 <= from,
    ensures
        match first_prefixed(ls, "@@"@, from) {
            Some(k) => from <= k < ls.len() && hunk_header(ls[k]) && forall|j: int|
                from <= j < k ==> !hunk_header(#[trigger] ls[j]),
            None => forall|j: int| from <= j < ls.len() ==> !hunk_header(#[trigger] ls[j]),
        },
    decreases ls.len() - from,
{
    if from < ls.len() {
        lemma_header(ls[from]);
        lemma_first_header(ls, from + 1);
    }
}

proof fn lemma_last_header(ls: Seq<Seq<char>>, upto: int)
    ensures
        match last_prefixed(ls, "@@"@, upto) {
            Some(k) => 0 <= k < upto && k < ls.len() && hunk_header(ls[k]) && forall|j: int|
                k < j < upto && j < ls.len() ==> !hunk_header(#[trigger] ls[j]),
            None => forall|j: int| 0 <= j < upto && j < ls.len() ==> !hunk_header(#[trigger] ls[j]),
        },
    decreases upto,
{
    if upto > 0 {
        if upto - 1 < ls.len() {
            lemma_header(ls[upto - 1]);
        }
        lemma_last_header(ls, upto - 1);
    }
}

/// Jumping to the next hunk moves strictly forward in the shown diff: to the
/// first hunk header after the line at the top of the diff panel, with no
/// header in between, marking the jump at `now`; with no header after it,
/// or no diff shown, nothing changes. The line index is kept as a 16-bit
/// scroll offset.
#[verifier::rlimit(100)]
#[verifier::spinoff_prover]
pub proof fn law_next_hunk(old: AppState, now: i64, new: AppState, res: Option<Command>)
    requires
        reduce_step(old, Action::NextHunk, now, new, res),
    ensures
        res is None,
        old.log.current_diff is None ==> new == old,
        old.log.current_diff matches Some(diff) ==> {
            let ls = text_lines(diff@);
            let c = old.log.diff_scroll as int;
            if forall|j: int| c < j < ls.len() ==> !hunk_header(#[trigger] ls[j]) {
                new == old
            } else {
                exists|k: int|
                    #![trigger ls[k]]
                    c < k < ls.len() && hunk_header(ls[k]) && (forall|j: int|
                        c < j < k ==> !hunk_header(#[trigger] ls[j])) && new.log.diff_scroll == k as u16
                        && new.hunk_highlight_time == Some(now)
            }
        },
{
    assert(navigation_handles(Action::NextHunk));
    if let Some(diff) = old.log.current_diff {
        let ls = text_lines(diff@);
        let c = old.log.diff_scroll as int;
        lemma_first_header(ls, c + 1);
        if let Some(k) = first_prefixed(ls, "@@"@, c + 1) {
            assert(!(forall|j: int| c < j < ls.len() ==> !hunk_header(#[trigger] ls[j])));
            assert(ls[k] == ls[k]);
        }
    }
}

/// Jumping to the previous hunk moves strictly back in the shown diff: to the
/// last hunk header before the line at the top of the diff panel, with no
/// header in between, marking the jump at `now`; with no header before it,
/// or no diff shown, nothing changes.
#[verifier::rlimit(100)]
#[verifier::spinoff_prover]
pub proof fn law_prev_hunk(old: AppState, now: i64, new: AppState, res: Option<Command>)
    requires
        reduce_step(old, Action::PrevHunk, now, new, res),
    ensures
        res is None,
        old.log.current_diff is None ==> new == old,
        old.log.current_diff matches Some(diff) ==> {
            let ls = text_lines(diff@);
            let c = old.log.diff_scroll as int;
            if forall|j: int| 0 <= j < c && j < ls.len() ==> !hunk_header(#[trigger] ls[j]) {
                new == old
            } else {
                exists|k: int|
                    #![trigger ls[k]]
                    0 <= k < c && k < ls.len() && hunk_header(ls[k]) && (forall|j: int|
                        k < j < c && j < ls.len() ==> !hunk_header(#[trigger] ls[j]))
                        && new.log.diff_scroll == k as u16 && new.hunk_highlight_time == Some(now)
            }
        },
{
    assert(navigation_handles(Action::PrevHunk));
    if let Some(diff) = old.log.current_diff {
        let ls = text_lines(diff@);
        let c = old.log.diff_scroll as int;
        lemma_last_header(ls, c);
        if let Some(k) = last_prefixed(ls, "@@"@, c) {
            assert(!(forall|j: int| 0 <= j < c && j < ls.len() ==> !hunk_header(#[trigger] ls[j])));
            assert(ls[k] == ls[k]);
        }
    }
}

/// Abandoning asks `jj abandon` for the revision it names, or else for the
/// marked revisions (the selected one when none is marked), and clears the
/// marks; with nothing to abandon it asks nothing. Deleting a bookmark asks
/// to delete the selected revision's first bookmark.
pub proof fn law_abandon_and_bookmark(old: AppState, a: Action, now: i64, new: AppState, res: Option<Command>)
    requires
        reduce_step(old, a, now, new, res),
    ensures
        a matches Action::AbandonRevision(Some(id)) ==> res matches Some(Command::Abandon(v)) && v@ == seq![id]
            && new.log.selected_ids@.len() == 0,
        a == Action::AbandonRevision(None) ==> if old.selected_commit_ids().len() == 0 {
            res is None && new == old
        } else {
            res matches Some(Command::Abandon(v)) && v@ == old.selected_commit_ids()
                && new.log.selected_ids@.len() == 0
        },
        a is DeleteBookmarkIntent ==> new == old && res == match old.selected_row() {
            Some(row) => if row.bookmarks@.len() > 0 {
                Some(Command::DeleteBookmark(row.bookmarks@[0]))
            } else {
                None
            },
            None => None,
        },
{
    if a is AbandonRevision || a is DeleteBookmarkIntent {
        assert(vcs_handles(a));
        assert(!navigation_handles(a));
    }
}

/// Selecting the next revision moves the selection one row down, from the
/// last row back to the first; the previous one moves it one row up, from
/// the first row to the last; with nothing selected either selects the
/// first row.
#[verifier::rlimit(100)]
#[verifier::spinoff_prover]
pub proof fn law_selection_moves(old: AppState, a: Action, now: i64, new: AppState, res: Option<Command>)
    requires
        reduce_step(old, a, now, new, res),
        a is SelectNext || a is SelectPrev,
        0 < graph_len(old) <= isize::MAX,
        old.log.list_state.selected matches Some(i) ==> i < graph_len(old),
    ensures
        new.log.list_state.selected == Some(
            match old.log.list_state.selected {
                Some(i) => if a is SelectNext {
                    if i + 1 < graph_len(old) {
                        (i + 1) as usize
                    } else {
                        0usize
                    }
                } else {
                    if i > 0 {
                        (i - 1) as usize
                    } else {
                        (graph_len(old) - 1) as usize
                    }
                },
                None => 0usize,
            },
        ),
{
    assert(navigation_handles(a));
    let len = graph_len(old) as usize;
    if let Some(i) = old.log.list_state.selected {
        if a is SelectNext {
            if i + 1 < len {
                vstd::arithmetic::div_mod::lemma_small_mod((i + 1) as nat, len as nat);
            } else {
                vstd::arithmetic::div_mod::lemma_mod_self_0(len as int);
            }
        } else {
            if i > 0 {
                vstd::arithmetic::div_mod::lemma_small_mod((i - 1) as nat, len as nat);
            } else {
                vstd::arithmetic::div_mod::lemma_fundamental_div_mod_converse(-1, len as int, -1, len - 1);
            }
        }
    }
}

} // verus!
