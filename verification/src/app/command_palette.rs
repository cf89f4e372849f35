//! The command palette: the commands it offers and the search over them.
use crate::app::action::Action;
use crate::text::{contains, lowercase, seq_contains, to_lowercase};
use vstd::prelude::*;

verus! {

/// A command offered by the palette.
#[derive(Debug)]
pub struct CommandDefinition {
    pub name: &'static str,
    pub description: &'static str,
    pub action: Action,
}

/// The palette's commands: name, description and action, in order.
pub open spec fn command_table() -> Seq<(Seq<char>, Seq<char>, Action)> {
    seq![
        ("Snapshot"@, "Snapshot the working copy"@, Action::SnapshotWorkingCopy),
        ("Describe"@, "Update the revision description"@, Action::DescribeRevisionIntent),
        ("New Child"@, "Create a new child revision"@, Action::NewRevision(None)),
        ("Edit"@, "Edit the selected revision"@, Action::EditRevision(None)),
        ("Abandon"@, "Abandon the selected revision"@, Action::AbandonRevision(None)),
        ("Squash"@, "Squash revision into parent"@, Action::SquashRevision),
        ("Set Bookmark"@, "Set a bookmark on the selected revision"@, Action::SetBookmarkIntent),
        ("Delete Bookmark"@, "Delete a bookmark"@, Action::DeleteBookmarkIntent),
        ("Undo"@, "Undo the last operation"@, Action::Undo),
        ("Redo"@, "Redo the last operation"@, Action::Redo),
        ("Fetch"@, "Fetch from the remote"@, Action::Fetch),
        ("Push"@, "Push to the remote"@, Action::PushIntent),
        ("Filter: Mine"@, "Show only your revisions"@, Action::FilterMine),
        ("Filter: Trunk"@, "Show revisions in the trunk"@, Action::FilterTrunk),
        ("Filter: Conflicts"@, "Show revisions with conflicts"@, Action::FilterConflicts),
        ("Filter: Custom"@, "Enter a custom revset filter"@, Action::EnterFilterMode),
        ("Toggle Diffs"@, "Toggle the diff panel"@, Action::ToggleDiffs),
        ("Help"@, "Show the help overlay"@, Action::ToggleHelp),
        ("Quit"@, "Quit Judo"@, Action::Quit),
    ]
}

/// The entry `d` describes the `i`-th command of the table.
pub open spec fn describes(d: CommandDefinition, i: int) -> bool {
    &&& d.name@ == command_table()[i].0
    &&& d.description@ == command_table()[i].1
    &&& d.action == command_table()[i].2
}

/// The palette's commands (see `command_table`).
pub fn get_commands() -> (res: Vec<CommandDefinition>)
    ensures
        res@.len() == command_table().len(),
        forall|i: int| 0 <= i < res@.len() ==> describes(#[trigger] res@[i], i),
{
    let res = vec![
        CommandDefinition { name: "Snapshot", description: "Snapshot the working copy", action: Action::SnapshotWorkingCopy },
        CommandDefinition { name: "Describe", description: "Update the revision description", action: Action::DescribeRevisionIntent },
        CommandDefinition { name: "New Child", description: "Create a new child revision", action: Action::NewRevision(None) },
        CommandDefinition { name: "Edit", description: "Edit the selected revision", action: Action::EditRevision(None) },
        CommandDefinition { name: "Abandon", description: "Abandon the selected revision", action: Action::AbandonRevision(None) },
        CommandDefinition { name: "Squash", description: "Squash revision into parent", action: Action::SquashRevision },
        CommandDefinition { name: "Set Bookmark", description: "Set a bookmark on the selected revision", action: Action::SetBookmarkIntent },
        CommandDefinition { name: "Delete Bookmark", description: "Delete a bookmark", action: Action::DeleteBookmarkIntent },
        CommandDefinition { name: "Undo", description: "Undo the last operation", action: Action::Undo },
        CommandDefinition { name: "Redo", description: "Redo the last operation", action: Action::Redo },
        CommandDefinition { name: "Fetch", description: "Fetch from the remote", action: Action::Fetch },
        CommandDefinition { name: "Push", description: "Push to the remote", action: Action::PushIntent },
        CommandDefinition { name: "Filter: Mine", description: "Show only your revisions", action: Action::FilterMine },
        CommandDefinition { name: "Filter: Trunk", description: "Show revisions in the trunk", action: Action::FilterTrunk },
        CommandDefinition { name: "Filter: Conflicts", description: "Show revisions with conflicts", action: Action::FilterConflicts },
        CommandDefinition { name: "Filter: Custom", description: "Enter a custom revset filter", action: Action::EnterFilterMode },
        CommandDefinition { name: "Toggle Diffs", description: "Toggle the diff panel", action: Action::ToggleDiffs },
        CommandDefinition { name: "Help", description: "Show the help overlay", action: Action::ToggleHelp },
        CommandDefinition { name: "Quit", description: "Quit Judo", action: Action::Quit },
    ];
    assert forall|i: int| 0 <= i < res@.len() implies describes(#[trigger] res@[i], i) by {}
    res
}

/// The command at `i` matches the lowercase query `q` by its name.
pub open spec fn name_matches(i: int, q: Seq<char>) -> bool {
    seq_contains(lowercase(command_table()[i].0), q)
}

/// The command at `i` matches the lowercase query `q` by its description.
pub open spec fn description_matches(i: int, q: Seq<char>) -> bool {
    seq_contains(lowercase(command_table()[i].1), q)
}

/// The indices below `n` of commands whose name matches `q`, in order.
pub open spec fn name_hits(q: Seq<char>, n: int) -> Seq<usize>
    decreases n,
{
    if n <= 0 {
        Seq::empty()
    } else if name_matches(n - 1, q) {
        name_hits(q, n - 1).push((n - 1) as usize)
    } else {
        name_hits(q, n - 1)
    }
}

/// The indices below `n` of commands whose description, and not name,
/// matches `q`, in order.
pub open spec fn description_hits(q: Seq<char>, n: int) -> Seq<usize>
    decreases n,
{
    if n <= 0 {
        Seq::empty()
    } else if !name_matches(n - 1, q) && description_matches(n - 1, q) {
        description_hits(q, n - 1).push((n - 1) as usize)
    } else {
        description_hits(q, n - 1)
    }
}

/// The result of a palette search: every command for an empty query;
/// otherwise the commands whose lowercase name contains the lowercase query,
/// then those whose lowercase description does, each in table order and
/// none twice.
pub open spec fn search_result(query: Seq<char>) -> Seq<usize> {
    let n = command_table().len() as int;
    if query.len() == 0 {
        Seq::new(n as nat, |i: int| i as usize)
    } else {
        let q = lowercase(query);
        name_hits(q, n) + description_hits(q, n)
    }
}

/// The indices of the commands that match `query` (see `search_result`).
pub fn search_commands(query: &str) -> (res: Vec<usize>)
    ensures
        res@ == search_result(query@),
{
    let commands = get_commands();
    let n = commands.len();
    if query.is_empty() {
        let mut all: Vec<usize> = Vec::new();
        for i in 0..n
            invariant
                n == command_table().len(),
                all@ == Seq::new(i as nat, |j: int| j as usize),
        {
            all.push(i);
            assert(all@ =~= Seq::new((i + 1) as nat, |j: int| j as usize));
        }
        return all;
    }
    let query_lower = to_lowercase(query);
    let ghost q = lowercase(query@);
    let mut results: Vec<usize> = Vec::new();
    let mut by_name: Vec<bool> = Vec::new();
    // First pass: the name contains the query.
    for i in 0..n
        invariant
            n == commands@.len(),
            n == command_table().len(),
            query_lower@ == q,
            forall|k: int| 0 <= k < n ==> describes(#[trigger] commands@[k], k),
            results@ == name_hits(q, i as int),
            by_name@.len() == i,
            forall|k: int| 0 <= k < i ==> by_name@[k] == name_matches(k, q),
    {
        let name_lower = to_lowercase(commands[i].name);
        let hit = contains(name_lower.as_str(), query_lower.as_str());
        proof {
            assert(describes(commands@[i as int], i as int));
        }
        if hit {
            results.push(i);
        }
        by_name.push(hit);
    }
    let ghost first = results@;
    // Second pass: the description contains the query, and the name did not.
    for i in 0..n
        invariant
            n == commands@.len(),
            n == command_table().len(),
            query_lower@ == q,
            forall|k: int| 0 <= k < n ==> describes(#[trigger] commands@[k], k),
            first == name_hits(q, n as int),
            results@ == first + description_hits(q, i as int),
            by_name@.len() == n,
            forall|k: int| 0 <= k < n ==> by_name@[k] == name_matches(k, q),
    {
        proof {
            assert(describes(commands@[i as int], i as int));
        }
        if !by_name[i] {
            let description_lower = to_lowercase(commands[i].description);
            if contains(description_lower.as_str(), query_lower.as_str()) {
                results.push(i);
            }
        }
        assert(results@ =~= first + description_hits(q, i + 1));
    }
    results
}

} // verus!
