//! Key bindings: the default profile, custom bindings from the
//! configuration, and the choice of action for a key in each mode.
use crate::app::action::Action;
use crate::app::keys::{
    keys_match, normalize, plain_key, same_key, KeyCode, KeyInput, KeyModifiers, KeyPress,
};
use crate::domain::models::CommitId;
use crate::app::state::{AppMode, AppState};
use crate::text::{chars_of, join, joined, lowercase, to_lowercase, trim, trimmed};
use vstd::prelude::*;

verus! {

broadcast use vstd::string::group_string_axioms;

/// The key configuration: a profile name and custom bindings, each a key
/// name and an action name, in the order the configuration lists them.
#[derive(Debug)]
pub struct KeyConfig {
    pub profile: String,
    pub custom: Option<Vec<(String, String)>>,
}

impl Default for KeyConfig {
    /// The vim profile with no custom bindings.
    fn default() -> (res: Self)
        ensures
            res.profile@ == "vim"@,
            res.custom is None,
    {
        KeyConfig { profile: "vim".to_string(), custom: None }
    }
}

/// Key bindings: for all modes, and for the diff panel.
/// In each list a later binding of a key overrides an earlier one.
#[derive(Debug)]
pub struct KeyMap {
    pub global: Vec<(KeyInput, Action)>,
    pub diff_mode: Vec<(KeyInput, Action)>,
}

/// The action bound to `k` in `entries`: that of the last binding of the same key.
pub open spec fn lookup(entries: Seq<(KeyInput, Action)>, k: KeyInput) -> Option<Action>
    decreases entries.len(),
{
    if entries.len() == 0 {
        None
    } else if same_key(entries.last().0, k) {
        Some(entries.last().1)
    } else {
        lookup(entries.drop_last(), k)
    }
}

/// The bindings of the vim profile for all modes, in order.
pub open spec fn vim_global() -> Seq<(KeyInput, Action)> {
    seq![
        (plain_key(KeyCode::Char('q')), Action::Quit),
        (plain_key(KeyCode::Enter), Action::ToggleDiffs),
        (plain_key(KeyCode::Tab), Action::FocusDiff),
        (plain_key(KeyCode::Char('l')), Action::FocusDiff),
        (plain_key(KeyCode::Char('j')), Action::SelectNext),
        (plain_key(KeyCode::Down), Action::SelectNext),
        (plain_key(KeyCode::Char('k')), Action::SelectPrev),
        (plain_key(KeyCode::Up), Action::SelectPrev),
        (plain_key(KeyCode::Char('s')), Action::SnapshotWorkingCopy),
        (plain_key(KeyCode::Char('S')), Action::EnterSquashMode),
        (plain_key(KeyCode::Char('e')), Action::EditRevision(None)),
        (plain_key(KeyCode::Char('n')), Action::NewRevision(None)),
        (plain_key(KeyCode::Char('a')), Action::AbandonRevision(None)),
        (plain_key(KeyCode::Char('b')), Action::SetBookmarkIntent),
        (plain_key(KeyCode::Char('B')), Action::DeleteBookmarkIntent),
        (plain_key(KeyCode::Char('d')), Action::DescribeRevisionIntent),
        (plain_key(KeyCode::Char('m')), Action::FilterMine),
        (plain_key(KeyCode::Char('x')), Action::ToggleSelection(None)),
        (plain_key(KeyCode::Char('t')), Action::FilterTrunk),
        (plain_key(KeyCode::Char('c')), Action::FilterConflicts),
        (plain_key(KeyCode::Char('u')), Action::Undo),
        (plain_key(KeyCode::Char('U')), Action::Redo),
        (plain_key(KeyCode::Char('f')), Action::Fetch),
        (plain_key(KeyCode::Char('/')), Action::EnterFilterMode),
        (plain_key(KeyCode::Char('p')), Action::PushIntent),
        (plain_key(KeyCode::Char('?')), Action::ToggleHelp),
        (plain_key(KeyCode::Char('T')), Action::EnterThemeSelection),
        (plain_key(KeyCode::Char('r')), Action::RebaseRevisionIntent),
        (plain_key(KeyCode::Char('v')), Action::EvologRevision(None)),
        (plain_key(KeyCode::PageDown), Action::ScrollDiffDown(10)),
        (plain_key(KeyCode::PageUp), Action::ScrollDiffUp(10)),
        (plain_key(KeyCode::Char('[')), Action::PrevHunk),
        (plain_key(KeyCode::Char(']')), Action::NextHunk),
        (plain_key(KeyCode::Char(':')), Action::EnterCommandMode),
        (plain_key(KeyCode::Char('C')), Action::ClearFilter),
        (plain_key(KeyCode::Esc), Action::CancelMode),
    ]
}

/// The bindings of the vim profile for the diff panel, in order.
pub open spec fn vim_diff_mode() -> Seq<(KeyInput, Action)> {
    seq![
        (plain_key(KeyCode::Char('h')), Action::FocusGraph),
        (plain_key(KeyCode::Tab), Action::FocusGraph),
        (plain_key(KeyCode::Char('j')), Action::SelectNextFile),
        (plain_key(KeyCode::Down), Action::SelectNextFile),
        (plain_key(KeyCode::Char('k')), Action::SelectPrevFile),
        (plain_key(KeyCode::Up), Action::SelectPrevFile),
        (plain_key(KeyCode::PageDown), Action::ScrollDiffDown(10)),
        (plain_key(KeyCode::PageUp), Action::ScrollDiffUp(10)),
        (plain_key(KeyCode::Char('[')), Action::PrevHunk),
        (plain_key(KeyCode::Char(']')), Action::NextHunk),
        (plain_key(KeyCode::Esc), Action::CancelMode),
    ]
}

/// The key that a key name from the configuration denotes, given the
/// lowercase form `l` of the name.
pub open spec fn key_named(l: Seq<char>) -> Option<KeyInput> {
    if l == "enter"@ {
        Some(plain_key(KeyCode::Enter))
    } else if l == "tab"@ {
        Some(plain_key(KeyCode::Tab))
    } else if l == "esc"@ {
        Some(plain_key(KeyCode::Esc))
    } else if l == "up"@ {
        Some(plain_key(KeyCode::Up))
    } else if l == "down"@ {
        Some(plain_key(KeyCode::Down))
    } else if l == "left"@ {
        Some(plain_key(KeyCode::Left))
    } else if l == "right"@ {
        Some(plain_key(KeyCode::Right))
    } else if l == "pgup"@ || l == "pageup"@ {
        Some(plain_key(KeyCode::PageUp))
    } else if l == "pgdn"@ || l == "pagedown"@ {
        Some(plain_key(KeyCode::PageDown))
    } else if l.len() == 1 && (l[0] as u32) < 128 {
        Some(plain_key(KeyCode::Char(l[0])))
    } else {
        None
    }
}

/// The action that an action name from the configuration denotes, given the
/// lowercase form `l` of the name.
pub open spec fn action_named(l: Seq<char>) -> Option<Action> {
    if l == "quit"@ {
        Some(Action::Quit)
    } else if l == "togglediffs"@ {
        Some(Action::ToggleDiffs)
    } else if l == "focusdiff"@ {
        Some(Action::FocusDiff)
    } else if l == "focusgraph"@ {
        Some(Action::FocusGraph)
    } else if l == "selectnext"@ {
        Some(Action::SelectNext)
    } else if l == "selectprev"@ {
        Some(Action::SelectPrev)
    } else if l == "selectnextfile"@ {
        Some(Action::SelectNextFile)
    } else if l == "selectprevfile"@ {
        Some(Action::SelectPrevFile)
    } else if l == "snapshot"@ {
        Some(Action::SnapshotWorkingCopy)
    } else if l == "edit"@ {
        Some(Action::EditRevision(None))
    } else if l == "new"@ {
        Some(Action::NewRevision(None))
    } else if l == "describe"@ {
        Some(Action::DescribeRevisionIntent)
    } else if l == "commit"@ {
        Some(Action::CommitWorkingCopyIntent)
    } else if l == "abandon"@ {
        Some(Action::AbandonRevision(None))
    } else if l == "setbookmark"@ {
        Some(Action::SetBookmarkIntent)
    } else if l == "deletebookmark"@ {
        Some(Action::DeleteBookmarkIntent)
    } else if l == "undo"@ {
        Some(Action::Undo)
    } else if l == "redo"@ {
        Some(Action::Redo)
    } else if l == "fetch"@ {
        Some(Action::Fetch)
    } else if l == "push"@ {
        Some(Action::PushIntent)
    } else if l == "filter"@ {
        Some(Action::EnterFilterMode)
    } else if l == "help"@ {
        Some(Action::ToggleHelp)
    } else if l == "nexthunk"@ {
        Some(Action::NextHunk)
    } else if l == "prevhunk"@ {
        Some(Action::PrevHunk)
    } else if l == "cancel"@ {
        Some(Action::CancelMode)
    } else if l == "filterempty"@ {
        Some(Action::FilterEmpty)
    } else if l == "filterdivergent"@ {
        Some(Action::FilterDivergent)
    } else if l == "filtermerges"@ {
        Some(Action::FilterMerges)
    } else if l == "filtertags"@ {
        Some(Action::FilterTags)
    } else if l == "filterremotebookmarks"@ {
        Some(Action::FilterRemoteBookmarks)
    } else if l == "filterworking"@ {
        Some(Action::FilterWorking)
    } else if l == "clearfilter"@ {
        Some(Action::ClearFilter)
    } else if l == "split"@ {
        Some(Action::SplitRevision(None))
    } else if l == "rebase"@ {
        Some(Action::RebaseRevisionIntent)
    } else if l == "evolog"@ {
        Some(Action::EvologRevision(None))
    } else if l == "oplog"@ || l == "operationlog"@ {
        Some(Action::OperationLog)
    } else {
        None
    }
}

/// The custom bindings that parse, in order.
pub open spec fn custom_bindings(custom: Seq<(String, String)>) -> Seq<(KeyInput, Action)>
    decreases custom.len(),
{
    if custom.len() == 0 {
        Seq::empty()
    } else {
        let rest = custom_bindings(custom.drop_last());
        let (ks, acts) = custom.last();
        match (key_named(lowercase(ks@)), action_named(lowercase(acts@))) {
            (Some(k), Some(a)) => rest.push((k, a)),
            _ => rest,
        }
    }
}

/// A key press with no modifier.
pub fn key_code(code: KeyCode) -> (res: KeyInput)
    ensures
        res == plain_key(code),
{
    KeyInput { code, modifiers: KeyModifiers::none(), kind: crate::app::keys::KeyEventKind::Press, state: 0 }
}

/// A character key press with no modifier.
pub fn key_char(c: char) -> (res: KeyInput)
    ensures
        res == plain_key(KeyCode::Char(c)),
{
    key_code(KeyCode::Char(c))
}

/// `s` holds exactly the characters of `lit`.
fn text_is(s: &Vec<char>, lit: &str) -> (res: bool)
    ensures
        res == (s@ == lit@),
{
    let l = chars_of(lit);
    if s.len() != l.len() {
        return false;
    }
    let n = s.len();
    for i in 0..n
        invariant
            n == s@.len(),
            n == l@.len(),
            l@ == lit@,
            forall|j: int| 0 <= j < i ==> s@[j] == l@[j],
    {
        if s[i] != l[i] {
            return false;
        }
    }
    assert(s@ =~= l@);
    true
}

/// The key that a key name denotes (see `key_named`).
pub fn parse_key(s: &str) -> (res: Option<KeyInput>)
    ensures
        res == key_named(lowercase(s@)),
{
    let lower = to_lowercase(s);
    let l = chars_of(lower.as_str());
    if text_is(&l, "enter") {
        Some(key_code(KeyCode::Enter))
    } else if text_is(&l, "tab") {
        Some(key_code(KeyCode::Tab))
    } else if text_is(&l, "esc") {
        Some(key_code(KeyCode::Esc))
    } else if text_is(&l, "up") {
        Some(key_code(KeyCode::Up))
    } else if text_is(&l, "down") {
        Some(key_code(KeyCode::Down))
    } else if text_is(&l, "left") {
        Some(key_code(KeyCode::Left))
    } else if text_is(&l, "right") {
        Some(key_code(KeyCode::Right))
    } else if text_is(&l, "pgup") || text_is(&l, "pageup") {
        Some(key_code(KeyCode::PageUp))
    } else if text_is(&l, "pgdn") || text_is(&l, "pagedown") {
        Some(key_code(KeyCode::PageDown))
    } else if l.len() == 1 && (l[0] as u32) < 128 {
        Some(key_char(l[0]))
    } else {
        None
    }
}

/// The action that an action name denotes (see `action_named`).
pub fn parse_action(s: &str) -> (res: Option<Action>)
    ensures
        res == action_named(lowercase(s@)),
{
    let lower = to_lowercase(s);
    let l = chars_of(lower.as_str());
    if text_is(&l, "quit") {
        Some(Action::Quit)
    } else if text_is(&l, "togglediffs") {
        Some(Action::ToggleDiffs)
    } else if text_is(&l, "focusdiff") {
        Some(Action::FocusDiff)
    } else if text_is(&l, "focusgraph") {
        Some(Action::FocusGraph)
    } else if text_is(&l, "selectnext") {
        Some(Action::SelectNext)
    } else if text_is(&l, "selectprev") {
        Some(Action::SelectPrev)
    } else if text_is(&l, "selectnextfile") {
        Some(Action::SelectNextFile)
    } else if text_is(&l, "selectprevfile") {
        Some(Action::SelectPrevFile)
    } else if text_is(&l, "snapshot") {
        Some(Action::SnapshotWorkingCopy)
    } else if text_is(&l, "edit") {
        Some(Action::EditRevision(None))
    } else if text_is(&l, "new") {
        Some(Action::NewRevision(None))
    } else if text_is(&l, "describe") {
        Some(Action::DescribeRevisionIntent)
    } else if text_is(&l, "commit") {
        Some(Action::CommitWorkingCopyIntent)
    } else if text_is(&l, "abandon") {
        Some(Action::AbandonRevision(None))
    } else if text_is(&l, "setbookmark") {
        Some(Action::SetBookmarkIntent)
    } else if text_is(&l, "deletebookmark") {
        Some(Action::DeleteBookmarkIntent)
    } else if text_is(&l, "undo") {
        Some(Action::Undo)
    } else if text_is(&l, "redo") {
        Some(Action::Redo)
    } else if text_is(&l, "fetch") {
        Some(Action::Fetch)
    } else if text_is(&l, "push") {
        Some(Action::PushIntent)
    } else if text_is(&l, "filter") {
        Some(Action::EnterFilterMode)
    } else if text_is(&l, "help") {
        Some(Action::ToggleHelp)
    } else if text_is(&l, "nexthunk") {
        Some(Action::NextHunk)
    } else if text_is(&l, "prevhunk") {
        Some(Action::PrevHunk)
    } else if text_is(&l, "cancel") {
        Some(Action::CancelMode)
    } else if text_is(&l, "filterempty") {
        Some(Action::FilterEmpty)
    } else if text_is(&l, "filterdivergent") {
        Some(Action::FilterDivergent)
    } else if text_is(&l, "filtermerges") {
        Some(Action::FilterMerges)
    } else if text_is(&l, "filtertags") {
        Some(Action::FilterTags)
    } else if text_is(&l, "filterremotebookmarks") {
        Some(Action::FilterRemoteBookmarks)
    } else if text_is(&l, "filterworking") {
        Some(Action::FilterWorking)
    } else if text_is(&l, "clearfilter") {
        Some(Action::ClearFilter)
    } else if text_is(&l, "split") {
        Some(Action::SplitRevision(None))
    } else if text_is(&l, "rebase") {
        Some(Action::RebaseRevisionIntent)
    } else if text_is(&l, "evolog") {
        Some(Action::EvologRevision(None))
    } else if text_is(&l, "oplog") || text_is(&l, "operationlog") {
        Some(Action::OperationLog)
    } else {
        None
    }
}

impl KeyMap {
    /// The vim profile.
    pub fn vim_profile() -> (res: Self)
        ensures
            res.global@ == vim_global(),
            res.diff_mode@ == vim_diff_mode(),
    {
        let mut global: Vec<(KeyInput, Action)> = Vec::new();
        let mut diff_mode: Vec<(KeyInput, Action)> = Vec::new();
    global.push((key_code(KeyCode::Char('q')), Action::Quit));
    global.push((key_code(KeyCode::Enter), Action::ToggleDiffs));
    global.push((key_code(KeyCode::Tab), Action::FocusDiff));
    global.push((key_code(KeyCode::Char('l')), Action::FocusDiff));
    global.push((key_code(KeyCode::Char('j')), Action::SelectNext));
    global.push((key_code(KeyCode::Down), Action::SelectNext));
    global.push((key_code(KeyCode::Char('k')), Action::SelectPrev));
    global.push((key_code(KeyCode::Up), Action::SelectPrev));
    global.push((key_code(KeyCode::Char('s')), Action::SnapshotWorkingCopy));
    global.push((key_code(KeyCode::Char('S')), Action::EnterSquashMode));
    global.push((key_code(KeyCode::Char('e')), Action::EditRevision(None)));
    global.push((key_code(KeyCode::Char('n')), Action::NewRevision(None)));
    global.push((key_code(KeyCode::Char('a')), Action::AbandonRevision(None)));
    global.push((key_code(KeyCode::Char('b')), Action::SetBookmarkIntent));
    global.push((key_code(KeyCode::Char('B')), Action::DeleteBookmarkIntent));
    global.push((key_code(KeyCode::Char('d')), Action::DescribeRevisionIntent));
    global.push((key_code(KeyCode::Char('m')), Action::FilterMine));
    global.push((key_code(KeyCode::Char('x')), Action::ToggleSelection(None)));
    global.push((key_code(KeyCode::Char('t')), Action::FilterTrunk));
    global.push((key_code(KeyCode::Char('c')), Action::FilterConflicts));
    global.push((key_code(KeyCode::Char('u')), Action::Undo));
    global.push((key_code(KeyCode::Char('U')), Action::Redo));
    global.push((key_code(KeyCode::Char('f')), Action::Fetch));
    global.push((key_code(KeyCode::Char('/')), Action::EnterFilterMode));
    global.push((key_code(KeyCode::Char('p')), Action::PushIntent));
    global.push((key_code(KeyCode::Char('?')), Action::ToggleHelp));
    global.push((key_code(KeyCode::Char('T')), Action::EnterThemeSelection));
    global.push((key_code(KeyCode::Char('r')), Action::RebaseRevisionIntent));
    global.push((key_code(KeyCode::Char('v')), Action::EvologRevision(None)));
    global.push((key_code(KeyCode::PageDown), Action::ScrollDiffDown(10)));
    global.push((key_code(KeyCode::PageUp), Action::ScrollDiffUp(10)));
    global.push((key_code(KeyCode::Char('[')), Action::PrevHunk));
    global.push((key_code(KeyCode::Char(']')), Action::NextHunk));
    global.push((key_code(KeyCode::Char(':')), Action::EnterCommandMode));
    global.push((key_code(KeyCode::Char('C')), Action::ClearFilter));
    global.push((key_code(KeyCode::Esc), Action::CancelMode));
    diff_mode.push((key_code(KeyCode::Char('h')), Action::FocusGraph));
    diff_mode.push((key_code(KeyCode::Tab), Action::FocusGraph));
    diff_mode.push((key_code(KeyCode::Char('j')), Action::SelectNextFile));
    diff_mode.push((key_code(KeyCode::Down), Action::SelectNextFile));
    diff_mode.push((key_code(KeyCode::Char('k')), Action::SelectPrevFile));
    diff_mode.push((key_code(KeyCode::Up), Action::SelectPrevFile));
    diff_mode.push((key_code(KeyCode::PageDown), Action::ScrollDiffDown(10)));
    diff_mode.push((key_code(KeyCode::PageUp), Action::ScrollDiffUp(10)));
    diff_mode.push((key_code(KeyCode::Char('[')), Action::PrevHunk));
    diff_mode.push((key_code(KeyCode::Char(']')), Action::NextHunk));
    diff_mode.push((key_code(KeyCode::Esc), Action::CancelMode));
        assert(global@ =~= vim_global());
        assert(diff_mode@ =~= vim_diff_mode());
        KeyMap { global, diff_mode }
    }

    /// The vim profile with the configuration's custom bindings added for all
    /// modes, later ones overriding earlier ones; unknown names are skipped.
    pub fn from_config(config: &KeyConfig) -> (res: Self)
        ensures
            res.global@ == vim_global() + match config.custom {
                Some(c) => custom_bindings(c@),
                None => Seq::empty(),
            },
            res.diff_mode@ == vim_diff_mode(),
    {
        let mut map = Self::vim_profile();
        match &config.custom {
            Some(custom) => {
                let n = custom.len();
                for i in 0..n
                    invariant
                        n == custom@.len(),
                        map.global@ == vim_global() + custom_bindings(custom@.take(i as int)),
                        map.diff_mode@ == vim_diff_mode(),
                {
                    proof {
                        assert(custom@.take(i + 1).drop_last() =~= custom@.take(i as int));
                    }
                    let key = parse_key(custom[i].0.as_str());
                    let action = parse_action(custom[i].1.as_str());
                    match (key, action) {
                        (Some(k), Some(a)) => {
                            map.global.push((k, a));
                        },
                        _ => {},
                    }
                    assert(map.global@ =~= vim_global() + custom_bindings(custom@.take(i + 1)));
                }
                assert(custom@.take(n as int) =~= custom@);
            },
            None => {
                assert(map.global@ =~= vim_global() + Seq::<(KeyInput, Action)>::empty());
            },
        }
        map
    }
}

/// The action bound to `key` in `entries` (see `lookup`), copied.
pub fn find_binding(entries: &Vec<(KeyInput, Action)>, key: KeyInput) -> (res: Option<Action>)
    ensures
        match lookup(entries@, key) {
            Some(a) => res matches Some(r) && r.copy_of(a),
            None => res is None,
        },
{
    let mut i = entries.len();
    assert(entries@.take(i as int) =~= entries@);
    while i > 0
        invariant
            i <= entries@.len(),
            lookup(entries@.take(i as int), key) == lookup(entries@, key),
        decreases i,
    {
        proof {
            assert(entries@.take(i as int).drop_last() =~= entries@.take(i - 1));
        }
        if keys_match(entries[i - 1].0, key) {
            return Some(entries[i - 1].1.clone());
        }
        i -= 1;
    }
    None
}

/// The text of the open input: its lines joined with line feeds (empty
/// without an input).
pub open spec fn input_text(s: AppState) -> Seq<char> {
    match s.input {
        Some(i) => joined(i.text_area.lines_view(), "\n"@),
        None => Seq::empty(),
    }
}

/// `res` is the copy of the binding of `k` in `entries`, if any.
pub open spec fn bound(entries: Seq<(KeyInput, Action)>, k: KeyInput, res: Option<Action>) -> bool {
    match lookup(entries, k) {
        Some(a) => res matches Some(r) && r.copy_of(a),
        None => res is None,
    }
}

/// The action that finishing a rebase input asks for: none for an empty
/// destination, else a rebase of `sources` onto the destination.
pub open spec fn rebase_finished(s: AppState, sources: Seq<CommitId>, res: Option<Action>) -> bool {
    if trimmed(input_text(s)).len() == 0 {
        res == Some(Action::CancelMode)
    } else {
        res matches Some(Action::RebaseRevision(ids, d)) && ids@ == sources && d@ == input_text(s)
    }
}

/// The action a key press asks for in the state `s`, by the key bindings
/// `km` and the fixed keys of each mode.
pub open spec fn key_action(km: KeyMap, key: KeyPress, s: AppState, res: Option<Action>) -> bool {
    let k = key.key;
    let ctrl = k.modifiers.control;
    match s.mode {
        AppMode::Diff => match lookup(km.diff_mode@, k) {
            Some(a) => res matches Some(r) && r.copy_of(a),
            None => bound(km.global@, k, res),
        },
        AppMode::CommandPalette => res == Some(
            match k.code {
                KeyCode::Esc => Action::CancelMode,
                KeyCode::Enter => Action::CommandPaletteSelect,
                KeyCode::Down => Action::CommandPaletteNext,
                KeyCode::Up => Action::CommandPalettePrev,
                KeyCode::Char('n') if ctrl => Action::CommandPaletteNext,
                KeyCode::Char('p') if ctrl => Action::CommandPalettePrev,
                _ => Action::TextAreaInput(key),
            },
        ),
        AppMode::ThemeSelection => res == match k.code {
            KeyCode::Esc => Some(Action::CancelMode),
            KeyCode::Char('j') | KeyCode::Down => Some(Action::SelectNext),
            KeyCode::Char('k') | KeyCode::Up => Some(Action::SelectPrev),
            KeyCode::Enter => Some(Action::CommandPaletteSelect),
            _ => None,
        },
        AppMode::FilterInput => match k.code {
            KeyCode::Enter => res matches Some(Action::ApplyFilter(t)) && t@ == input_text(s),
            _ => res == Some(
                match k.code {
                    KeyCode::Esc => Action::CancelMode,
                    KeyCode::Tab => Action::ToggleFilterSource,
                    KeyCode::Down => Action::FilterNext,
                    KeyCode::Up => Action::FilterPrev,
                    KeyCode::Char('n') if ctrl => Action::FilterNext,
                    KeyCode::Char('p') if ctrl => Action::FilterPrev,
                    _ => Action::TextAreaInput(key),
                },
            ),
        },
        AppMode::RebaseInput => match k.code {
            KeyCode::Esc => res == Some(Action::CancelMode),
            KeyCode::Enter => rebase_finished(s, s.selected_commit_ids(), res),
            _ => res == Some(Action::TextAreaInput(key)),
        },
        AppMode::RebaseSelect => match k.code {
            KeyCode::Esc => res == Some(Action::CancelMode),
            KeyCode::Enter => rebase_finished(s, s.rebase_sources@, res),
            _ => res == Some(Action::TextAreaInput(key)),
        },
        AppMode::Evolog => res == match k.code {
            KeyCode::Esc | KeyCode::Char('q') => Some(Action::CloseEvolog),
            KeyCode::Char('j') | KeyCode::Down => Some(Action::ScrollEvologDown(1)),
            KeyCode::Char('k') | KeyCode::Up => Some(Action::ScrollEvologUp(1)),
            KeyCode::PageDown => Some(Action::ScrollEvologDown(10)),
            KeyCode::PageUp => Some(Action::ScrollEvologUp(10)),
            _ => None,
        },
        AppMode::OperationLog => res == match k.code {
            KeyCode::Esc | KeyCode::Char('q') => Some(Action::CloseOperationLog),
            KeyCode::Char('j') | KeyCode::Down => Some(Action::ScrollOperationLogDown(1)),
            KeyCode::Char('k') | KeyCode::Up => Some(Action::ScrollOperationLogUp(1)),
            KeyCode::PageDown => Some(Action::ScrollOperationLogDown(10)),
            KeyCode::PageUp => Some(Action::ScrollOperationLogUp(10)),
            _ => None,
        },
        _ => bound(km.global@, k, res),
    }
}

/// The text of the open input (see `input_text`).
pub fn input_text_of(state: &AppState) -> (res: String)
    ensures
        res@ == input_text(*state),
{
    match &state.input {
        Some(input) => {
            let ls = input.text_area.lines();
            let t = join(&ls, "\n");
            assert(ls@.map_values(|p: String| p@) =~= input.text_area.lines_view());
            t
        },
        None => String::new(),
    }
}

/// Finishes a rebase input (see `rebase_finished`).
fn finish_rebase(state: &AppState, ids: Vec<CommitId>) -> (res: Option<Action>)
    ensures
        rebase_finished(*state, ids@, res),
{
    let text = input_text_of(state);
    let trimmed_text = trim(text.as_str());
    if trimmed_text.as_str().is_empty() {
        return Some(Action::CancelMode);
    }
    Some(Action::RebaseRevision(ids, text))
}

impl KeyMap {
    /// The action a key press asks for (see `key_action`).
    pub fn get_action(&self, event: KeyPress, state: &AppState) -> (res: Option<Action>)
        ensures
            key_action(*self, event, *state, res),
    {
        let k = event.key;
        let ctrl = k.modifiers.control;
        match state.mode {
            AppMode::Diff => {
                let found = find_binding(&self.diff_mode, k);
                if found.is_some() {
                    return found;
                }
                find_binding(&self.global, k)
            },
            AppMode::CommandPalette => Some(
                match k.code {
                    KeyCode::Esc => Action::CancelMode,
                    KeyCode::Enter => Action::CommandPaletteSelect,
                    KeyCode::Down => Action::CommandPaletteNext,
                    KeyCode::Up => Action::CommandPalettePrev,
                    KeyCode::Char('n') if ctrl => Action::CommandPaletteNext,
                    KeyCode::Char('p') if ctrl => Action::CommandPalettePrev,
                    _ => Action::TextAreaInput(event),
                },
            ),
            AppMode::ThemeSelection => match k.code {
                KeyCode::Esc => Some(Action::CancelMode),
                KeyCode::Char('j') | KeyCode::Down => Some(Action::SelectNext),
                KeyCode::Char('k') | KeyCode::Up => Some(Action::SelectPrev),
                KeyCode::Enter => Some(Action::CommandPaletteSelect),
                _ => None,
            },
            AppMode::FilterInput => Some(
                match k.code {
                    KeyCode::Esc => Action::CancelMode,
                    KeyCode::Enter => Action::ApplyFilter(input_text_of(state)),
                    KeyCode::Tab => Action::ToggleFilterSource,
                    KeyCode::Down => Action::FilterNext,
                    KeyCode::Up => Action::FilterPrev,
                    KeyCode::Char('n') if ctrl => Action::FilterNext,
                    KeyCode::Char('p') if ctrl => Action::FilterPrev,
                    _ => Action::TextAreaInput(event),
                },
            ),
            AppMode::RebaseInput => match k.code {
                KeyCode::Esc => Some(Action::CancelMode),
                KeyCode::Enter => finish_rebase(state, state.get_selected_commit_ids()),
                _ => Some(Action::TextAreaInput(event)),
            },
            AppMode::RebaseSelect => match k.code {
                KeyCode::Esc => Some(Action::CancelMode),
                KeyCode::Enter => {
                    let ids = state.rebase_sources.clone();
                    assert(ids@ =~= state.rebase_sources@);
                    finish_rebase(state, ids)
                },
                _ => Some(Action::TextAreaInput(event)),
            },
            AppMode::Evolog => match k.code {
                KeyCode::Esc | KeyCode::Char('q') => Some(Action::CloseEvolog),
                KeyCode::Char('j') | KeyCode::Down => Some(Action::ScrollEvologDown(1)),
                KeyCode::Char('k') | KeyCode::Up => Some(Action::ScrollEvologUp(1)),
                KeyCode::PageDown => Some(Action::ScrollEvologDown(10)),
                KeyCode::PageUp => Some(Action::ScrollEvologUp(10)),
                _ => None,
            },
            AppMode::OperationLog => match k.code {
                KeyCode::Esc | KeyCode::Char('q') => Some(Action::CloseOperationLog),
                KeyCode::Char('j') | KeyCode::Down => Some(Action::ScrollOperationLogDown(1)),
                KeyCode::Char('k') | KeyCode::Up => Some(Action::ScrollOperationLogUp(1)),
                KeyCode::PageDown => Some(Action::ScrollOperationLogDown(10)),
                KeyCode::PageUp => Some(Action::ScrollOperationLogUp(10)),
                _ => None,
            },
            _ => find_binding(&self.global, k),
        }
    }
}

} // verus!
