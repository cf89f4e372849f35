//! Running commands: what the runtime announces before calling the version
//! control system, and which action reports each outcome. The runtime makes
//! the calls; these functions decide the messages and the actions.
use crate::app::action::Action;
use crate::app::command::Command;
use crate::domain::models::{CommitId, RepoStatus};
use crate::text::{concat2, concat3, decimal, owned, usize_text};
use vstd::prelude::*;

verus! {

broadcast use vstd::string::group_string_axioms;

/// The text of a list of revisions in a message: the revision when there is
/// one, else how many there are followed by `" revisions"`.
pub open spec fn revisions_text(ids: Seq<CommitId>) -> Seq<char> {
    if ids.len() == 1 {
        ids[0]@
    } else {
        decimal(ids.len()) + " revisions"@
    }
}

/// The message that announces a command that calls the version control
/// system, if it is announced.
pub open spec fn start_text(cmd: Command) -> Option<Seq<char>> {
    match cmd {
        Command::DescribeRevision(id, _) => Some("Describing "@ + id@ + "..."@),
        Command::Commit(_) => Some("Committing..."@),
        Command::Snapshot => Some("Snapshotting..."@),
        Command::Edit(id) => Some("Editing "@ + id@ + "..."@),
        Command::Squash(ids) => Some("Squashing "@ + revisions_text(ids@) + "..."@),
        Command::New(id) => Some("Creating child of "@ + id@ + "..."@),
        Command::Absorb => Some("Absorbing changes..."@),
        Command::Duplicate(ids) => Some("Duplicating "@ + revisions_text(ids@) + "..."@),
        Command::Rebase(ids, dest) => Some(
            "Rebasing "@ + revisions_text(ids@) + " onto "@ + dest@ + "..."@,
        ),
        Command::Parallelize(ids) => Some("Parallelizing "@ + revisions_text(ids@) + "..."@),
        Command::Abandon(ids) => Some("Abandoning "@ + revisions_text(ids@) + "..."@),
        Command::Revert(ids) => Some("Reverting "@ + revisions_text(ids@) + "..."@),
        Command::SetBookmark(_, name) => Some("Setting bookmark "@ + name@ + "..."@),
        Command::DeleteBookmark(name) => Some("Deleting bookmark "@ + name@ + "..."@),
        Command::Undo => Some("Undoing..."@),
        Command::Redo => Some("Redoing..."@),
        Command::Fetch => Some("Fetching..."@),
        Command::Push(b) => Some(
            match b {
                Some(b) => "Pushing "@ + b@ + "..."@,
                None => "Pushing..."@,
            },
        ),
        Command::InitRepo => Some("Initializing repository..."@),
        Command::Evolog(id) => Some("Fetching evolog for "@ + id@ + "..."@),
        Command::OperationLog => Some("Fetching operation log..."@),
        _ => None,
    }
}

/// The message that reports a command's success, for the commands whose
/// call returns nothing.
pub open spec fn success_text(cmd: Command) -> Option<Seq<char>> {
    match cmd {
        Command::DescribeRevision(_, _) => Some("Described"@),
        Command::Commit(_) => Some("Committed"@),
        Command::Edit(_) => Some("Edit successful"@),
        Command::Squash(_) => Some("Squash successful"@),
        Command::New(_) => Some("New revision created"@),
        Command::Absorb => Some("Absorb successful"@),
        Command::Duplicate(_) => Some("Revision(s) duplicated"@),
        Command::Rebase(_, _) => Some("Rebase successful"@),
        Command::Parallelize(_) => Some("Revision(s) parallelized"@),
        Command::Abandon(_) => Some("Revision(s) abandoned"@),
        Command::Revert(_) => Some("Revision(s) reverted"@),
        Command::SetBookmark(_, _) => Some("Bookmark set"@),
        Command::DeleteBookmark(_) => Some("Bookmark deleted"@),
        Command::Undo => Some("Undo successful"@),
        Command::Redo => Some("Redo successful"@),
        Command::Fetch => Some("Fetch successful"@),
        Command::Push(_) => Some("Push successful"@),
        Command::InitRepo => Some("Repository initialized"@),
        _ => None,
    }
}

/// The text of a list of revisions (see `revisions_text`).
fn revisions_message(ids: &Vec<CommitId>) -> (res: String)
    ensures
        res@ == revisions_text(ids@),
{
    if ids.len() == 1 {
        owned(ids[0].0.as_str())
    } else {
        let mut s = usize_text(ids.len());
        s.append(" revisions");
        s
    }
}

/// The message announcing a command (see `start_text`).
pub fn start_message(cmd: &Command) -> (res: Option<String>)
    ensures
        match start_text(*cmd) {
            Some(t) => res matches Some(m) && m@ == t,
            None => res is None,
        },
{
    match cmd {
        Command::DescribeRevision(id, _) => Some(concat3("Describing ", id.0.as_str(), "...")),
        Command::Commit(_) => Some(owned("Committing...")),
        Command::Snapshot => Some(owned("Snapshotting...")),
        Command::Edit(id) => Some(concat3("Editing ", id.0.as_str(), "...")),
        Command::Squash(ids) => Some(
            concat3("Squashing ", revisions_message(ids).as_str(), "..."),
        ),
        Command::New(id) => Some(concat3("Creating child of ", id.0.as_str(), "...")),
        Command::Absorb => Some(owned("Absorbing changes...")),
        Command::Duplicate(ids) => Some(
            concat3("Duplicating ", revisions_message(ids).as_str(), "..."),
        ),
        Command::Rebase(ids, dest) => {
            let mut m = concat3("Rebasing ", revisions_message(ids).as_str(), " onto ");
            m.append(dest.as_str());
            m.append("...");
            Some(m)
        },
        Command::Parallelize(ids) => Some(
            concat3("Parallelizing ", revisions_message(ids).as_str(), "..."),
        ),
        Command::Abandon(ids) => Some(
            concat3("Abandoning ", revisions_message(ids).as_str(), "..."),
        ),
        Command::Revert(ids) => Some(
            concat3("Reverting ", revisions_message(ids).as_str(), "..."),
        ),
        Command::SetBookmark(_, name) => Some(
            concat3("Setting bookmark ", name.as_str(), "..."),
        ),
        Command::DeleteBookmark(name) => Some(
            concat3("Deleting bookmark ", name.as_str(), "..."),
        ),
        Command::Undo => Some(owned("Undoing...")),
        Command::Redo => Some(owned("Redoing...")),
        Command::Fetch => Some(owned("Fetching...")),
        Command::Push(b) => Some(
            match b {
                Some(b) => concat3("Pushing ", b.as_str(), "..."),
                None => owned("Pushing..."),
            },
        ),
        Command::InitRepo => Some(owned("Initializing repository...")),
        Command::Evolog(id) => Some(concat3("Fetching evolog for ", id.0.as_str(), "...")),
        Command::OperationLog => Some(owned("Fetching operation log...")),
        _ => None,
    }
}

/// The message reporting a command's success (see `success_text`).
pub fn success_message(cmd: &Command) -> (res: Option<&'static str>)
    ensures
        match success_text(*cmd) {
            Some(t) => res matches Some(m) && m@ == t,
            None => res is None,
        },
{
    match cmd {
        Command::DescribeRevision(_, _) => Some("Described"),
        Command::Commit(_) => Some("Committed"),
        Command::Edit(_) => Some("Edit successful"),
        Command::Squash(_) => Some("Squash successful"),
        Command::New(_) => Some("New revision created"),
        Command::Absorb => Some("Absorb successful"),
        Command::Duplicate(_) => Some("Revision(s) duplicated"),
        Command::Rebase(_, _) => Some("Rebase successful"),
        Command::Parallelize(_) => Some("Revision(s) parallelized"),
        Command::Abandon(_) => Some("Revision(s) abandoned"),
        Command::Revert(_) => Some("Revision(s) reverted"),
        Command::SetBookmark(_, _) => Some("Bookmark set"),
        Command::DeleteBookmark(_) => Some("Bookmark deleted"),
        Command::Undo => Some("Undo successful"),
        Command::Redo => Some("Redo successful"),
        Command::Fetch => Some("Fetch successful"),
        Command::Push(_) => Some("Push successful"),
        Command::InitRepo => Some("Repository initialized"),
        _ => None,
    }
}

/// The report of an operation: its success message, or the error prefixed
/// with `"Error: "`.
pub fn operation_result(success: &str, outcome: Result<(), String>) -> (res: Action)
    ensures
        match outcome {
            Ok(()) => res matches Action::OperationCompleted(Ok(m)) && m@ == success@,
            Err(e) => res matches Action::OperationCompleted(Err(m)) && m@ == "Error: "@ + e@,
        },
{
    match outcome {
        Ok(()) => Action::OperationCompleted(Ok(owned(success))),
        Err(e) => Action::OperationCompleted(Err(concat2("Error: ", e.as_str()))),
    }
}

/// The report of a snapshot: the message it gave, or the error prefixed
/// with `"Error: "`.
pub fn snapshot_result(outcome: Result<String, String>) -> (res: Action)
    ensures
        match outcome {
            Ok(m) => res == Action::OperationCompleted(Ok(m)),
            Err(e) => res matches Action::OperationCompleted(Err(m)) && m@ == "Error: "@ + e@,
        },
{
    match outcome {
        Ok(m) => Action::OperationCompleted(Ok(m)),
        Err(e) => Action::OperationCompleted(Err(concat2("Error: ", e.as_str()))),
    }
}

/// The report of loading the graph: a batch added to it when heads were
/// given, else a fresh graph; or the error.
pub fn load_result(batch: bool, outcome: Result<RepoStatus, String>) -> (res: Action)
    ensures
        match outcome {
            Ok(r) => if batch {
                res == Action::GraphBatchLoaded(Box::new(r))
            } else {
                res == Action::RepoLoaded(Box::new(r))
            },
            Err(e) => res matches Action::ErrorOccurred(m) && m@ == "Failed to load repo: "@ + e@,
        },
{
    match outcome {
        Ok(r) => if batch {
            Action::GraphBatchLoaded(Box::new(r))
        } else {
            Action::RepoLoaded(Box::new(r))
        },
        Err(e) => Action::ErrorOccurred(concat2("Failed to load repo: ", e.as_str())),
    }
}

/// The report of a background reload: the graph, or the error.
pub fn background_result(outcome: Result<RepoStatus, String>) -> (res: Action)
    ensures
        match outcome {
            Ok(r) => res == Action::RepoReloadedBackground(Box::new(r)),
            Err(e) => res matches Action::ErrorOccurred(m) && m@ == "Background sync failed: "@
                + e@,
        },
{
    match outcome {
        Ok(r) => Action::RepoReloadedBackground(Box::new(r)),
        Err(e) => Action::ErrorOccurred(concat2("Background sync failed: ", e.as_str())),
    }
}

/// The report of loading a diff: the diff, or the error as the diff's text.
pub fn diff_result(commit_id: CommitId, outcome: Result<String, String>) -> (res: Action)
    ensures
        match outcome {
            Ok(d) => res == Action::DiffLoaded(commit_id, d),
            Err(e) => res matches Action::DiffLoaded(id, m) && id == commit_id && m@ == "Error: "@
                + e@,
        },
{
    match outcome {
        Ok(d) => Action::DiffLoaded(commit_id, d),
        Err(e) => Action::DiffLoaded(commit_id, concat2("Error: ", e.as_str())),
    }
}

/// The report of fetching a log: the evolution log or the operation log
/// opened, or the error.
pub fn log_result(evolog: bool, outcome: Result<String, String>) -> (res: Action)
    ensures
        match outcome {
            Ok(c) => if evolog {
                res == Action::OpenEvolog(c)
            } else {
                res == Action::OpenOperationLog(c)
            },
            Err(e) => res matches Action::OperationCompleted(Err(m)) && m@ == "Error: "@ + e@,
        },
{
    match outcome {
        Ok(c) => if evolog {
            Action::OpenEvolog(c)
        } else {
            Action::OpenOperationLog(c)
        },
        Err(e) => Action::OperationCompleted(Err(concat2("Error: ", e.as_str()))),
    }
}

/// The `/`-separated part of `path` that starts at `i` is `..`.
pub open spec fn parent_part_at(path: Seq<char>, i: int) -> bool {
    &&& 0 <= i && i + 2 <= path.len()
    &&& path[i] == '.' && path[i + 1] == '.'
    &&& i == 0 || path[i - 1] == '/'
    &&& i + 2 == path.len() || path[i + 2] == '/'
}

/// Some `/`-separated part of `path` is `..`: it leads out of its directory.
pub open spec fn climbs_out(path: Seq<char>) -> bool {
    exists|i: int| #[trigger] parent_part_at(path, i)
}

/// Whether `path` has a `..` part (see `climbs_out`).
pub fn has_parent_component(path: &str) -> (res: bool)
    ensures
        res == climbs_out(path@),
{
    let cs = crate::text::chars_of(path);
    let n = cs.len();
    let mut i: usize = 0;
    while i < n && n - i >= 2
        invariant
            cs@ == path@,
            n == cs@.len(),
            i <= n,
            forall|k: int| 0 <= k < i ==> !#[trigger] parent_part_at(path@, k),
        decreases n - i,
    {
        if cs[i] == '.' && cs[i + 1] == '.' && (i == 0 || cs[i - 1] == '/') && (i + 2 == n
            || cs[i + 2] == '/') {
            assert(parent_part_at(path@, i as int));
            return true;
        }
        i += 1;
    }
    assert forall|k: int| !#[trigger] parent_part_at(path@, k) by {
        if parent_part_at(path@, k) {
            assert(k < i);
        }
    }
    false
}

/// The report of resolving a conflict with the external tool: whether it
/// succeeded, for the path.
pub fn resolve_result(path: &str, success: bool) -> (res: Action)
    ensures
        if success {
            res matches Action::OperationCompleted(Ok(m)) && m@ == "Resolved "@ + path@
        } else {
            res matches Action::OperationCompleted(Err(m)) && m@ == "Resolve failed for "@ + path@
        },
{
    if success {
        Action::OperationCompleted(Ok(concat2("Resolved ", path)))
    } else {
        Action::OperationCompleted(Err(concat2("Resolve failed for ", path)))
    }
}

/// The report of a refused conflict path.
pub fn invalid_path_result(path: &str) -> (res: Action)
    ensures
        res matches Action::OperationCompleted(Err(m)) && m@ == "Invalid path: "@ + path@,
{
    Action::OperationCompleted(Err(concat2("Invalid path: ", path)))
}

/// The report of splitting a revision with the external tool.
pub fn split_result(commit_id: &CommitId, success: bool) -> (res: Action)
    ensures
        if success {
            res matches Action::OperationCompleted(Ok(m)) && m@ == "Split revision "@ + commit_id@
        } else {
            res matches Action::OperationCompleted(Err(m)) && m@ == "Split failed for revision "@
                + commit_id@
        },
{
    if success {
        Action::OperationCompleted(Ok(concat2("Split revision ", commit_id.0.as_str())))
    } else {
        Action::OperationCompleted(Err(concat2("Split failed for revision ", commit_id.0.as_str())))
    }
}

} // verus!
