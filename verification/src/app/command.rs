//! Commands: the side effects that the state machine asks the runtime to perform.
use crate::domain::models::CommitId;
use vstd::prelude::*;

verus! {

/// A side effect to perform (usually a call to the version control system).
#[derive(Debug)]
pub enum Command {
    /// Load the graph: (heads, limit, revset filter).
    LoadRepo(Option<Vec<CommitId>>, usize, Option<String>),
    /// Reload the graph in the background: (limit, revset filter).
    LoadRepoBackground(usize, Option<String>),
    LoadDiff(CommitId),
    DescribeRevision(CommitId, String),
    Commit(String),
    Snapshot,
    Edit(CommitId),
    Squash(Vec<CommitId>),
    New(CommitId),
    Abandon(Vec<CommitId>),
    Absorb,
    Duplicate(Vec<CommitId>),
    Rebase(Vec<CommitId>, String),
    Parallelize(Vec<CommitId>),
    Revert(Vec<CommitId>),
    Split(CommitId),
    SetBookmark(CommitId, String),
    DeleteBookmark(String),
    Undo,
    Redo,
    Fetch,
    Push(Option<String>),
    ResolveConflict(String),
    InitRepo,
    Evolog(CommitId),
    OperationLog,
}

} // verus!
