//! The footer: the groups of key hints shown for each mode.
use crate::app::state::{AppMode, AppState};
use crate::app::state::context_menu::byte_len;
use crate::text::{concat3, owned};
use vstd::prelude::*;

verus! {

broadcast use vstd::string::group_string_axioms;

/// A key hint: the key, what it does, and whether it is highlighted.
#[derive(Debug)]
pub struct FooterItem {
    pub key: &'static str,
    pub desc: &'static str,
    pub highlighted: bool,
}

/// A named group of key hints.
#[derive(Debug)]
pub struct FooterGroup {
    pub name: &'static str,
    pub items: Vec<FooterItem>,
}

/// A hint as text: key, description, highlight.
pub open spec fn item_view(i: FooterItem) -> (Seq<char>, Seq<char>, bool) {
    (i.key@, i.desc@, i.highlighted)
}

/// A group as text: its name and its hints.
pub open spec fn group_view(g: FooterGroup) -> (Seq<char>, Seq<(Seq<char>, Seq<char>, bool)>) {
    (g.name@, g.items@.map_values(|i: FooterItem| item_view(i)))
}

/// The groups as text.
pub open spec fn groups_view(gs: Seq<FooterGroup>) -> Seq<(Seq<char>, Seq<(Seq<char>, Seq<char>, bool)>)> {
    gs.map_values(|g: FooterGroup| group_view(g))
}

/// The hints of the group ERROR.
pub open spec fn error_hints() -> (Seq<char>, Seq<(Seq<char>, Seq<char>, bool)>) {
    ("ERROR"@, seq![("Esc"@, "dismiss"@, false)])
}

fn error_group() -> (res: FooterGroup)
    ensures
        group_view(res) == error_hints(),
{
    let items = vec![FooterItem { key: "Esc", desc: "dismiss", highlighted: false }];
    let res = FooterGroup { name: "ERROR", items };
    assert(res.items@.map_values(|i: FooterItem| item_view(i)) =~= error_hints().1);
    res
}

/// The hints of the group NAV.
pub open spec fn nav_normal_hints(filtered: bool) -> (Seq<char>, Seq<(Seq<char>, Seq<char>, bool)>) {
    ("NAV"@, seq![("j/k"@, "move"@, false), ("/"@, "filt"@, false), ("m/t/c"@, "mine/trnk/conf"@, false), ("C"@, "clear"@, filtered)])
}

fn nav_normal_group(filtered: bool) -> (res: FooterGroup)
    ensures
        group_view(res) == nav_normal_hints(filtered),
{
    let items = vec![FooterItem { key: "j/k", desc: "move", highlighted: false }, FooterItem { key: "/", desc: "filt", highlighted: false }, FooterItem { key: "m/t/c", desc: "mine/trnk/conf", highlighted: false }, FooterItem { key: "C", desc: "clear", highlighted: filtered }];
    let res = FooterGroup { name: "NAV", items };
    assert(res.items@.map_values(|i: FooterItem| item_view(i)) =~= nav_normal_hints(filtered).1);
    res
}

/// The hints of the group DIFF.
pub open spec fn diff_normal_hints() -> (Seq<char>, Seq<(Seq<char>, Seq<char>, bool)>) {
    ("DIFF"@, seq![("PgUp/Dn"@, "scroll"@, false), ("[/]"@, "hunk"@, false)])
}

fn diff_normal_group() -> (res: FooterGroup)
    ensures
        group_view(res) == diff_normal_hints(),
{
    let items = vec![FooterItem { key: "PgUp/Dn", desc: "scroll", highlighted: false }, FooterItem { key: "[/]", desc: "hunk", highlighted: false }];
    let res = FooterGroup { name: "DIFF", items };
    assert(res.items@.map_values(|i: FooterItem| item_view(i)) =~= diff_normal_hints().1);
    res
}

/// The hints of the group EDIT.
pub open spec fn edit_hints() -> (Seq<char>, Seq<(Seq<char>, Seq<char>, bool)>) {
    ("EDIT"@, seq![("ENTER"@, "select"@, false), ("d"@, "desc"@, false), ("n"@, "new"@, false), ("e"@, "edit"@, false), ("a"@, "abdn"@, false)])
}

fn edit_group() -> (res: FooterGroup)
    ensures
        group_view(res) == edit_hints(),
{
    let items = vec![FooterItem { key: "ENTER", desc: "select", highlighted: false }, FooterItem { key: "d", desc: "desc", highlighted: false }, FooterItem { key: "n", desc: "new", highlighted: false }, FooterItem { key: "e", desc: "edit", highlighted: false }, FooterItem { key: "a", desc: "abdn", highlighted: false }];
    let res = FooterGroup { name: "EDIT", items };
    assert(res.items@.map_values(|i: FooterItem| item_view(i)) =~= edit_hints().1);
    res
}

/// The hints of the group VCS.
pub open spec fn vcs_hints() -> (Seq<char>, Seq<(Seq<char>, Seq<char>, bool)>) {
    ("VCS"@, seq![("s/S"@, "snap/sqsh"@, false), ("f"@, "fetch"@, false), ("p"@, "push"@, false), ("b/B"@, "bkmk"@, false), ("u/U"@, "undo"@, false)])
}

fn vcs_group() -> (res: FooterGroup)
    ensures
        group_view(res) == vcs_hints(),
{
    let items = vec![FooterItem { key: "s/S", desc: "snap/sqsh", highlighted: false }, FooterItem { key: "f", desc: "fetch", highlighted: false }, FooterItem { key: "p", desc: "push", highlighted: false }, FooterItem { key: "b/B", desc: "bkmk", highlighted: false }, FooterItem { key: "u/U", desc: "undo", highlighted: false }];
    let res = FooterGroup { name: "VCS", items };
    assert(res.items@.map_values(|i: FooterItem| item_view(i)) =~= vcs_hints().1);
    res
}

/// The hints of the group APP.
pub open spec fn app_quit_hints() -> (Seq<char>, Seq<(Seq<char>, Seq<char>, bool)>) {
    ("APP"@, seq![("q"@, "quit"@, false)])
}

fn app_quit_group() -> (res: FooterGroup)
    ensures
        group_view(res) == app_quit_hints(),
{
    let items = vec![FooterItem { key: "q", desc: "quit", highlighted: false }];
    let res = FooterGroup { name: "APP", items };
    assert(res.items@.map_values(|i: FooterItem| item_view(i)) =~= app_quit_hints().1);
    res
}

/// The hints of the group NAV.
pub open spec fn nav_diff_hints(conflict: bool) -> (Seq<char>, Seq<(Seq<char>, Seq<char>, bool)>) {
    ("NAV"@, seq![("j/k"@, "file"@, false), ("h/Tab"@, "back"@, false), ("PgUp/Dn"@, "scroll"@, false), ("m/ENTER"@, "merge"@, conflict)])
}

fn nav_diff_group(conflict: bool) -> (res: FooterGroup)
    ensures
        group_view(res) == nav_diff_hints(conflict),
{
    let items = vec![FooterItem { key: "j/k", desc: "file", highlighted: false }, FooterItem { key: "h/Tab", desc: "back", highlighted: false }, FooterItem { key: "PgUp/Dn", desc: "scroll", highlighted: false }, FooterItem { key: "m/ENTER", desc: "merge", highlighted: conflict }];
    let res = FooterGroup { name: "NAV", items };
    assert(res.items@.map_values(|i: FooterItem| item_view(i)) =~= nav_diff_hints(conflict).1);
    res
}

/// The hints of the group INPUT.
pub open spec fn input_hints() -> (Seq<char>, Seq<(Seq<char>, Seq<char>, bool)>) {
    ("INPUT"@, seq![("ENTER"@, "submit"@, false), ("Esc"@, "cancel"@, false)])
}

fn input_group() -> (res: FooterGroup)
    ensures
        group_view(res) == input_hints(),
{
    let items = vec![FooterItem { key: "ENTER", desc: "submit", highlighted: false }, FooterItem { key: "Esc", desc: "cancel", highlighted: false }];
    let res = FooterGroup { name: "INPUT", items };
    assert(res.items@.map_values(|i: FooterItem| item_view(i)) =~= input_hints().1);
    res
}

/// The hints of the group MENU.
pub open spec fn menu_hints() -> (Seq<char>, Seq<(Seq<char>, Seq<char>, bool)>) {
    ("MENU"@, seq![("j/k"@, "move"@, false), ("ENTER"@, "select"@, false), ("Esc"@, "close"@, false)])
}

fn menu_group() -> (res: FooterGroup)
    ensures
        group_view(res) == menu_hints(),
{
    let items = vec![FooterItem { key: "j/k", desc: "move", highlighted: false }, FooterItem { key: "ENTER", desc: "select", highlighted: false }, FooterItem { key: "Esc", desc: "close", highlighted: false }];
    let res = FooterGroup { name: "MENU", items };
    assert(res.items@.map_values(|i: FooterItem| item_view(i)) =~= menu_hints().1);
    res
}

/// The hints of the group SQUASH.
pub open spec fn squash_hints() -> (Seq<char>, Seq<(Seq<char>, Seq<char>, bool)>) {
    ("SQUASH"@, seq![("j/k"@, "select"@, false), ("ENTER"@, "confirm"@, false), ("Esc"@, "cancel"@, false)])
}

fn squash_group() -> (res: FooterGroup)
    ensures
        group_view(res) == squash_hints(),
{
    let items = vec![FooterItem { key: "j/k", desc: "select", highlighted: false }, FooterItem { key: "ENTER", desc: "confirm", highlighted: false }, FooterItem { key: "Esc", desc: "cancel", highlighted: false }];
    let res = FooterGroup { name: "SQUASH", items };
    assert(res.items@.map_values(|i: FooterItem| item_view(i)) =~= squash_hints().1);
    res
}

/// The hints of the group REBASE.
pub open spec fn rebase_hints() -> (Seq<char>, Seq<(Seq<char>, Seq<char>, bool)>) {
    ("REBASE"@, seq![("j/k"@, "select target"@, false), ("ENTER"@, "confirm"@, false), ("Esc"@, "cancel"@, false)])
}

fn rebase_group() -> (res: FooterGroup)
    ensures
        group_view(res) == rebase_hints(),
{
    let items = vec![FooterItem { key: "j/k", desc: "select target", highlighted: false }, FooterItem { key: "ENTER", desc: "confirm", highlighted: false }, FooterItem { key: "Esc", desc: "cancel", highlighted: false }];
    let res = FooterGroup { name: "REBASE", items };
    assert(res.items@.map_values(|i: FooterItem| item_view(i)) =~= rebase_hints().1);
    res
}

/// The hints of the group COMMAND.
pub open spec fn command_hints() -> (Seq<char>, Seq<(Seq<char>, Seq<char>, bool)>) {
    ("COMMAND"@, seq![("ENTER"@, "run"@, false), ("Esc"@, "cancel"@, false), ("j/k"@, "move"@, false), ("ctrl+n/p"@, "move"@, false)])
}

fn command_group() -> (res: FooterGroup)
    ensures
        group_view(res) == command_hints(),
{
    let items = vec![FooterItem { key: "ENTER", desc: "run", highlighted: false }, FooterItem { key: "Esc", desc: "cancel", highlighted: false }, FooterItem { key: "j/k", desc: "move", highlighted: false }, FooterItem { key: "ctrl+n/p", desc: "move", highlighted: false }];
    let res = FooterGroup { name: "COMMAND", items };
    assert(res.items@.map_values(|i: FooterItem| item_view(i)) =~= command_hints().1);
    res
}

/// The hints of the group LOADING.
pub open spec fn loading_hints() -> (Seq<char>, Seq<(Seq<char>, Seq<char>, bool)>) {
    ("LOADING"@, Seq::empty())
}

fn loading_group() -> (res: FooterGroup)
    ensures
        group_view(res) == loading_hints(),
{
    let items = vec![];
    let res = FooterGroup { name: "LOADING", items };
    assert(res.items@.map_values(|i: FooterItem| item_view(i)) =~= loading_hints().1);
    res
}

/// The hints of the group HELP.
pub open spec fn help_hints() -> (Seq<char>, Seq<(Seq<char>, Seq<char>, bool)>) {
    ("HELP"@, seq![("q/Esc/?"@, "close"@, false)])
}

fn help_group() -> (res: FooterGroup)
    ensures
        group_view(res) == help_hints(),
{
    let items = vec![FooterItem { key: "q/Esc/?", desc: "close", highlighted: false }];
    let res = FooterGroup { name: "HELP", items };
    assert(res.items@.map_values(|i: FooterItem| item_view(i)) =~= help_hints().1);
    res
}

/// The hints of the group THEME.
pub open spec fn theme_hints() -> (Seq<char>, Seq<(Seq<char>, Seq<char>, bool)>) {
    ("THEME"@, seq![("j/k"@, "select"@, false), ("ENTER"@, "apply"@, false), ("Esc"@, "cancel"@, false)])
}

fn theme_group() -> (res: FooterGroup)
    ensures
        group_view(res) == theme_hints(),
{
    let items = vec![FooterItem { key: "j/k", desc: "select", highlighted: false }, FooterItem { key: "ENTER", desc: "apply", highlighted: false }, FooterItem { key: "Esc", desc: "cancel", highlighted: false }];
    let res = FooterGroup { name: "THEME", items };
    assert(res.items@.map_values(|i: FooterItem| item_view(i)) =~= theme_hints().1);
    res
}

/// The hints of the group EVOLOG.
pub open spec fn evolog_hints() -> (Seq<char>, Seq<(Seq<char>, Seq<char>, bool)>) {
    ("EVOLOG"@, seq![("j/k"@, "scroll"@, false), ("q/Esc"@, "close"@, false)])
}

fn evolog_group() -> (res: FooterGroup)
    ensures
        group_view(res) == evolog_hints(),
{
    let items = vec![FooterItem { key: "j/k", desc: "scroll", highlighted: false }, FooterItem { key: "q/Esc", desc: "close", highlighted: false }];
    let res = FooterGroup { name: "EVOLOG", items };
    assert(res.items@.map_values(|i: FooterItem| item_view(i)) =~= evolog_hints().1);
    res
}

/// The hints of the group OP LOG.
pub open spec fn oplog_hints() -> (Seq<char>, Seq<(Seq<char>, Seq<char>, bool)>) {
    ("OP LOG"@, seq![("j/k"@, "scroll"@, false), ("q/Esc"@, "close"@, false)])
}

fn oplog_group() -> (res: FooterGroup)
    ensures
        group_view(res) == oplog_hints(),
{
    let items = vec![FooterItem { key: "j/k", desc: "scroll", highlighted: false }, FooterItem { key: "q/Esc", desc: "close", highlighted: false }];
    let res = FooterGroup { name: "OP LOG", items };
    assert(res.items@.map_values(|i: FooterItem| item_view(i)) =~= oplog_hints().1);
    res
}

/// The hints of the group INIT.
pub open spec fn init_hints() -> (Seq<char>, Seq<(Seq<char>, Seq<char>, bool)>) {
    ("INIT"@, seq![("i/ENTER"@, "initialize"@, false)])
}

fn init_group() -> (res: FooterGroup)
    ensures
        group_view(res) == init_hints(),
{
    let items = vec![FooterItem { key: "i/ENTER", desc: "initialize", highlighted: false }];
    let res = FooterGroup { name: "INIT", items };
    assert(res.items@.map_values(|i: FooterItem| item_view(i)) =~= init_hints().1);
    res
}

/// The hints of the group APP.
pub open spec fn app_esc_hints() -> (Seq<char>, Seq<(Seq<char>, Seq<char>, bool)>) {
    ("APP"@, seq![("q/Esc"@, "quit"@, false)])
}

fn app_esc_group() -> (res: FooterGroup)
    ensures
        group_view(res) == app_esc_hints(),
{
    let items = vec![FooterItem { key: "q/Esc", desc: "quit", highlighted: false }];
    let res = FooterGroup { name: "APP", items };
    assert(res.items@.map_values(|i: FooterItem| item_view(i)) =~= app_esc_hints().1);
    res
}

/// The NAV hints of the normal mode: with the diff panel shown, also how to
/// focus it.
pub open spec fn normal_nav_hints(filtered: bool, show: bool) -> (Seq<char>, Seq<(Seq<char>, Seq<char>, bool)>) {
    if show {
        (nav_normal_hints(filtered).0, nav_normal_hints(filtered).1.push(("Tab"@, "focus"@, false)))
    } else {
        nav_normal_hints(filtered)
    }
}

/// The footer's groups for a state: only how to dismiss an error while one
/// is shown; otherwise the hints of the mode, highlighting how to clear an
/// active filter and how to resolve a conflicted file.
pub open spec fn footer_groups(s: AppState) -> Seq<(Seq<char>, Seq<(Seq<char>, Seq<char>, bool)>)> {
    let conflict = s.selected_file() matches Some(f) && f.status == crate::domain::models::FileStatus::Conflicted;
    if s.last_error is Some {
        seq![error_hints()]
    } else {
        match s.mode {
            AppMode::Normal => if s.show_diffs {
                seq![normal_nav_hints(s.revset is Some, true), diff_normal_hints(), edit_hints(), vcs_hints(), app_quit_hints()]
            } else {
                seq![normal_nav_hints(s.revset is Some, false), edit_hints(), vcs_hints(), app_quit_hints()]
            },
            AppMode::Diff => seq![nav_diff_hints(conflict), app_quit_hints()],
            AppMode::Input | AppMode::BookmarkInput | AppMode::CommitInput | AppMode::FilterInput
            | AppMode::RebaseInput => seq![input_hints()],
            AppMode::ContextMenu => seq![menu_hints()],
            AppMode::SquashSelect => seq![squash_hints()],
            AppMode::RebaseSelect => seq![rebase_hints()],
            AppMode::CommandPalette => seq![command_hints()],
            AppMode::Loading => seq![loading_hints()],
            AppMode::Help => seq![help_hints()],
            AppMode::ThemeSelection => seq![theme_hints()],
            AppMode::Evolog => seq![evolog_hints()],
            AppMode::OperationLog => seq![oplog_hints()],
            AppMode::NoRepo => seq![init_hints(), app_esc_hints()],
        }
    }
}

/// The footer's groups for a state (see `footer_groups`).
pub fn get_groups(state: &AppState) -> (res: Vec<FooterGroup>)
    ensures
        groups_view(res@) == footer_groups(*state),
{
    if state.last_error.is_some() {
        let res = vec![error_group()];
        assert(groups_view(res@) =~= footer_groups(*state));
        return res;
    }
    let is_conflict = state.is_selected_file_conflicted();
    let res = match state.mode {
        AppMode::Normal => {
            let mut groups: Vec<FooterGroup> = Vec::new();
            let mut nav = nav_normal_group(state.revset.is_some());
            if state.show_diffs {
                let ghost before = nav.items@;
                nav.items.push(FooterItem { key: "Tab", desc: "focus", highlighted: false });
                assert(nav.items@.map_values(|i: FooterItem| item_view(i)) =~= before.map_values(
                    |i: FooterItem| item_view(i),
                ).push(("Tab"@, "focus"@, false)));
            }
            assert(group_view(nav) == normal_nav_hints(state.revset is Some, state.show_diffs));
            groups.push(nav);
            if state.show_diffs {
                groups.push(diff_normal_group());
            }
            groups.push(edit_group());
            groups.push(vcs_group());
            groups.push(app_quit_group());
            groups
        },
        AppMode::Diff => vec![nav_diff_group(is_conflict), app_quit_group()],
        AppMode::Input | AppMode::BookmarkInput | AppMode::CommitInput | AppMode::FilterInput
        | AppMode::RebaseInput => vec![input_group()],
        AppMode::ContextMenu => vec![menu_group()],
        AppMode::SquashSelect => vec![squash_group()],
        AppMode::RebaseSelect => vec![rebase_group()],
        AppMode::CommandPalette => vec![command_group()],
        AppMode::Loading => vec![loading_group()],
        AppMode::Help => vec![help_group()],
        AppMode::ThemeSelection => vec![theme_group()],
        AppMode::Evolog => vec![evolog_group()],
        AppMode::OperationLog => vec![oplog_group()],
        AppMode::NoRepo => vec![init_group(), app_esc_group()],
    };
    assert(groups_view(res@) =~= footer_groups(*state));
    res
}

/// The columns that a hint takes with its padding: a space on each side of
/// the key and of the description.
pub open spec fn item_width(it: (Seq<char>, Seq<char>, bool)) -> int {
    (byte_len(it.0) + byte_len(it.1) + 4) as int
}

/// The hints of a group from the `j`-th on that fit behind `current` used
/// columns, each followed by a space, within `avail`: the index of the first
/// hint that does not fit (or the number of hints) and the columns used then.
pub open spec fn items_fit(
    items: Seq<(Seq<char>, Seq<char>, bool)>,
    j: int,
    current: int,
    avail: int,
) -> (int, int)
    decreases items.len() - j,
{
    if j < 0 || j >= items.len() || current + item_width(items[j]) + 1 > avail {
        (j, current)
    } else {
        items_fit(items, j + 1, current + item_width(items[j]) + 1, avail)
    }
}

/// The groups from the `i`-th on that the footer shows behind `current`
/// used columns, within `avail` columns: for each, its index, whether its
/// name is shown (only on a `wide` footer, when the name and the first hint
/// fit) and how many of its hints are shown. Groups without hints are
/// passed over; the first group whose first hint does not fit ends the
/// footer. Two columns separate the groups.
pub open spec fn footer_fit(
    gs: Seq<(Seq<char>, Seq<(Seq<char>, Seq<char>, bool)>)>,
    i: int,
    current: int,
    avail: int,
    wide: bool,
) -> Seq<(int, bool, int)>
    decreases gs.len() - i,
{
    if i < 0 || i >= gs.len() {
        Seq::empty()
    } else if gs[i].1.len() == 0 {
        footer_fit(gs, i + 1, current, avail, wide)
    } else if current + item_width(gs[i].1[0]) > avail {
        Seq::empty()
    } else {
        let lw = byte_len(gs[i].0) + 2;
        let label = wide && current + lw + item_width(gs[i].1[0]) < avail;
        let c1 = if label {
            current + lw
        } else {
            current
        };
        let (n, c2) = items_fit(gs[i].1, 0, c1, avail);
        seq![(i, label, n)] + footer_fit(gs, i + 1, c2 + 2, avail, wide)
    }
}

/// The hints shown of a group fit: from `current` columns within `avail`,
/// the columns used stay within `avail`, and no more hints are counted than
/// the group has.
pub proof fn lemma_items_fit(items: Seq<(Seq<char>, Seq<char>, bool)>, j: int, current: int, avail: int)
    requires
        0 <= j <= items.len(),
    ensures
        j <= items_fit(items, j, current, avail).0 <= items.len(),
        current <= items_fit(items, j, current, avail).1,
        current <= avail ==> items_fit(items, j, current, avail).1 <= avail,
    decreases items.len() - j,
{
    if j < items.len() && current + item_width(items[j]) + 1 <= avail {
        lemma_items_fit(items, j + 1, current + item_width(items[j]) + 1, avail);
    }
}

/// The footer shows groups in their order, each at most once, and of each
/// at least one and at most all of its hints.
pub proof fn law_footer_in_order(
    gs: Seq<(Seq<char>, Seq<(Seq<char>, Seq<char>, bool)>)>,
    i: int,
    current: int,
    avail: int,
    wide: bool,
)
    requires
        0 <= i,
    ensures
        forall|k: int|
            0 <= k < footer_fit(gs, i, current, avail, wide).len() ==> i <= (
            #[trigger] footer_fit(gs, i, current, avail, wide)[k]).0 < gs.len()
                && footer_fit(gs, i, current, avail, wide)[k].2 <= gs[footer_fit(
                gs,
                i,
                current,
                avail,
                wide,
            )[k].0].1.len(),
        forall|k: int, l: int|
            0 <= k < l < footer_fit(gs, i, current, avail, wide).len() ==> (
            #[trigger] footer_fit(gs, i, current, avail, wide)[k]).0 < (
            #[trigger] footer_fit(gs, i, current, avail, wide)[l]).0,
    decreases gs.len() - i,
{
    let all = footer_fit(gs, i, current, avail, wide);
    if i < gs.len() {
        if gs[i].1.len() == 0 {
            law_footer_in_order(gs, i + 1, current, avail, wide);
            assert(all == footer_fit(gs, i + 1, current, avail, wide));
        } else if current + item_width(gs[i].1[0]) <= avail {
            let lw = byte_len(gs[i].0) + 2;
            let label = wide && current + lw + item_width(gs[i].1[0]) < avail;
            let c1 = if label {
                current + lw
            } else {
                current
            };
            let (n, c2) = items_fit(gs[i].1, 0, c1, avail);
            lemma_items_fit(gs[i].1, 0, c1, avail);
            law_footer_in_order(gs, i + 1, c2 + 2, avail, wide);
            let rest = footer_fit(gs, i + 1, c2 + 2, avail, wide);
            assert(all == seq![(i, label, n)] + rest);
            assert forall|k: int| 0 <= k < all.len() implies i <= (#[trigger] all[k]).0 < gs.len()
                && all[k].2 <= gs[all[k].0].1.len() by {
                if k > 0 {
                    assert(all[k] == rest[k - 1]);
                }
            }
            assert forall|k: int, l: int| 0 <= k < l < all.len() implies (#[trigger] all[k]).0 < (
            #[trigger] all[l]).0 by {
                assert(all[l] == rest[l - 1]);
                if k > 0 {
                    assert(all[k] == rest[k - 1]);
                }
            }
        }
    }
}

/// The shown groups as numbers.
pub open spec fn shown_view(v: Seq<(usize, bool, usize)>) -> Seq<(int, bool, int)> {
    v.map_values(|t: (usize, bool, usize)| (t.0 as int, t.1, t.2 as int))
}

/// How many hints of the group `g` fit behind `current` used columns within
/// `avail`, and the columns used then (see `items_fit`).
fn fit_items(g: &FooterGroup, current: u128, avail: u128) -> (res: (usize, u128))
    requires
        current <= avail <= 0xFFFF,
    ensures
        res.0 as int == items_fit(group_view(*g).1, 0, current as int, avail as int).0,
        res.1 as int == items_fit(group_view(*g).1, 0, current as int, avail as int).1,
        res.1 <= avail,
{
    let ghost items = group_view(*g).1;
    let ghost target = items_fit(items, 0, current as int, avail as int);
    let n = g.items.len();
    let mut j: usize = 0;
    let mut c = current;
    while j < n
        invariant
            n == items.len(),
            items == group_view(*g).1,
            0 <= j <= n,
            c <= avail <= 0xFFFF,
            target == items_fit(items, 0, current as int, avail as int),
            items_fit(items, j as int, c as int, avail as int) == target,
        decreases n - j,
    {
        let it = &g.items[j];
        assert(item_view(*it) == items[j as int]);
        let w = it.key.len() as u128 + it.desc.len() as u128 + 4;
        assert(w == item_width(items[j as int]));
        if c + w + 1 > avail {
            assert(items_fit(items, j as int, c as int, avail as int) == (j as int, c as int));
            return (j, c);
        }
        c = c + w + 1;
        j += 1;
    }
    (j, c)
}

/// The groups that the footer shows (see `footer_fit`): `used` columns are
/// taken before the hints, and the footer is `width` columns wide, of which
/// four are kept as a margin; names are shown on footers wider than 100.
pub fn footer_layout(groups: &Vec<FooterGroup>, used: usize, width: u16) -> (res: Vec<
    (usize, bool, usize),
>)
    ensures
        shown_view(res@) == footer_fit(
            groups_view(groups@),
            0,
            used as int,
            if width >= 4 {
                width - 4
            } else {
                0
            },
            width > 100,
        ),
{
    let avail: u128 = if width >= 4 {
        (width - 4) as u128
    } else {
        0
    };
    let wide = width > 100;
    let ghost gs = groups_view(groups@);
    let ghost target = footer_fit(gs, 0, used as int, avail as int, wide);
    let n = groups.len();
    let mut res: Vec<(usize, bool, usize)> = Vec::new();
    let mut current: u128 = used as u128;
    let mut i: usize = 0;
    while i < n
        invariant
            n == gs.len(),
            gs == groups_view(groups@),
            0 <= i <= n,
            avail <= 0xFFFF,
            target == footer_fit(gs, 0, used as int, avail as int, wide),
            avail == (if width >= 4 { width - 4 } else { 0 }),
            wide == (width > 100),
            current <= used + avail + 2,
            shown_view(res@) + footer_fit(gs, i as int, current as int, avail as int, wide)
                == target,
        decreases n - i,
    {
        let g = &groups[i];
        assert(group_view(*g) == gs[i as int]);
        if g.items.len() == 0 {
            i += 1;
            continue;
        }
        let first = &g.items[0];
        assert(item_view(*first) == gs[i as int].1[0]);
        let fw = first.key.len() as u128 + first.desc.len() as u128 + 4;
        assert(fw == item_width(gs[i as int].1[0]));
        if current + fw > avail {
            assert(footer_fit(gs, i as int, current as int, avail as int, wide) =~= Seq::empty());
            assert(shown_view(res@) + Seq::<(int, bool, int)>::empty() =~= shown_view(res@));
            return res;
        }
        let lw = g.name.len() as u128 + 2;
        assert(lw == byte_len(gs[i as int].0) + 2);
        let label = wide && current + lw + fw < avail;
        let c1 = if label {
            current + lw
        } else {
            current
        };
        let (count, c2) = fit_items(g, c1, avail);
        let ghost before = res@;
        res.push((i, label, count));
        proof {
            assert(shown_view(res@) =~= shown_view(before).push((i as int, label, count as int)));
            let rest = footer_fit(gs, i + 1, c2 + 2, avail as int, wide);
            assert(footer_fit(gs, i as int, current as int, avail as int, wide) == seq![
                (i as int, label, count as int),
            ] + rest);
            assert(shown_view(res@) + rest =~= shown_view(before) + (seq![
                (i as int, label, count as int),
            ] + rest));
        }
        current = c2 + 2;
        i += 1;
    }
    assert(shown_view(res@) + Seq::<(int, bool, int)>::empty() =~= shown_view(res@));
    res
}

/// The tone of the footer's status segment.
#[derive(Clone, Copy, Debug, PartialEq, Eq, Structural)]
pub enum StatusTone {
    Error,
    Info,
    Ready,
}

/// The status segment of the footer: the error shown, else the status
/// message, else `READY`, padded with two spaces on each side.
pub open spec fn status_segment_of(s: AppState) -> (Seq<char>, StatusTone) {
    match s.last_error {
        Some(e) => ("  ERROR: "@ + e.message@ + "  "@, StatusTone::Error),
        None => match s.status_message {
            Some(m) => ("  "@ + m@ + "  "@, StatusTone::Info),
            None => ("  READY  "@, StatusTone::Ready),
        },
    }
}

/// The status segment of the footer (see `status_segment_of`).
pub fn status_segment(state: &AppState) -> (res: (String, StatusTone))
    ensures
        (res.0@, res.1) == status_segment_of(*state),
{
    match &state.last_error {
        Some(e) => (concat3("  ERROR: ", e.message.as_str(), "  "), StatusTone::Error),
        None => match &state.status_message {
            Some(m) => (concat3("  ", m.as_str(), "  "), StatusTone::Info),
            None => (owned("  READY  "), StatusTone::Ready),
        },
    }
}

} // verus!
