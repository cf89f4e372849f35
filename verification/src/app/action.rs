//! Actions: everything that can happen to the application.
use crate::app::keys::KeyPress;
use crate::domain::models::{CommitId, RepoStatus};
use crate::theme::PaletteType;
use vstd::prelude::*;

verus! {

/// Whether a feature handled an action, and the command it asks for.
#[derive(Debug)]
pub enum UpdateResult {
    Handled(Option<crate::app::command::Command>),
    NotHandled,
}

/// An event or intent, from the user or from a finished side effect.
#[derive(Debug)]
pub enum Action {
    // System / Terminal
    Tick,
    Render,
    Resize(u16, u16),
    Quit,
    // Navigation (Log View)
    SelectNext,
    SelectPrev,
    SelectIndex(usize),
    SelectFile(usize),
    SelectFileByPath(String),
    SelectNextFile,
    SelectPrevFile,
    ScrollDiffUp(u16),
    ScrollDiffDown(u16),
    NextHunk,
    PrevHunk,
    ToggleDiffs,
    ToggleSelection(Option<CommitId>),
    ClearSelection,
    // JJ Domain Intents
    /// jj snapshot
    SnapshotWorkingCopy,
    /// jj edit <rev>
    EditRevision(Option<CommitId>),
    /// jj squash (uses selection)
    SquashRevision,
    /// jj new <rev> (create child)
    NewRevision(Option<CommitId>),
    /// Start describing the selected revision
    DescribeRevisionIntent,
    /// jj describe <rev> -m "msg"
    DescribeRevision(CommitId, String),
    /// Start committing the working copy
    CommitWorkingCopyIntent,
    /// jj commit -m "msg"
    CommitWorkingCopy(String),
    /// jj abandon <rev>
    AbandonRevision(Option<CommitId>),
    /// jj revert -r <revs>
    RevertRevision(Vec<CommitId>),
    /// jj absorb
    Absorb,
    /// jj duplicate (uses selection)
    DuplicateRevision,
    /// jj parallelize (uses selection)
    ParallelizeRevision,
    /// Start rebase (open destination input)
    RebaseRevisionIntent,
    /// jj rebase -r <revs> -d <dest>
    RebaseRevision(Vec<CommitId>, String),
    /// Start setting a bookmark
    SetBookmarkIntent,
    /// jj bookmark set <name> -r <rev>
    SetBookmark(CommitId, String),
    /// Start deleting a bookmark (may prompt)
    DeleteBookmarkIntent,
    /// jj bookmark delete <name>
    DeleteBookmark(String),
    /// jj split -r <rev>
    SplitRevision(Option<CommitId>),
    /// jj evolog <rev>
    EvologRevision(Option<CommitId>),
    /// jj operation log
    OperationLog,
    /// jj undo
    Undo,
    /// jj redo
    Redo,
    /// jj git fetch
    Fetch,
    /// Trigger push (may prompt)
    PushIntent,
    /// jj git push [-b <bookmark>]
    Push(Option<String>),
    /// jj resolve --tool ... <path>
    ResolveConflict(String),
    /// Trigger pagination
    LoadMoreGraph,
    /// jj git init --colocate
    InitRepo,
    // UI Mode Transitions
    /// Open command palette (:)
    EnterCommandMode,
    /// Open filter bar (/)
    EnterFilterMode,
    /// Apply a revset filter
    ApplyFilter(String),
    /// Quick filter: mine()
    FilterMine,
    /// Quick filter: trunk()
    FilterTrunk,
    /// Quick filter: conflicts()
    FilterConflicts,
    /// Quick filter: all()
    FilterAll,
    /// Quick filter: heads(all())
    FilterHeads,
    /// Quick filter: bookmarks()
    FilterBookmarks,
    /// Quick filter: immutable()
    FilterImmutable,
    /// Quick filter: mutable()
    FilterMutable,
    /// Quick filter: empty()
    FilterEmpty,
    /// Quick filter: divergent()
    FilterDivergent,
    /// Quick filter: merges()
    FilterMerges,
    /// Quick filter: tags()
    FilterTags,
    /// Quick filter: remote_bookmarks()
    FilterRemoteBookmarks,
    /// Quick filter: working_copies()
    FilterWorking,
    /// Clear the active revset filter
    ClearFilter,
    /// Next recent filter
    FilterNext,
    /// Previous recent filter
    FilterPrev,
    /// Toggle between recent and preset filters
    ToggleFilterSource,
    /// Open squash selection modal
    EnterSquashMode,
    /// Switch focus to diff window
    FocusDiff,
    /// Switch focus to revision graph
    FocusGraph,
    /// ESC key (close modal/mode)
    CancelMode,
    /// Toggle the help overlay (?)
    ToggleHelp,
    /// Open theme selection modal (T)
    EnterThemeSelection,
    /// Next theme in selection
    SelectThemeNext,
    /// Previous theme in selection
    SelectThemePrev,
    /// Apply a new theme
    SwitchTheme(PaletteType),
    /// Handle text area input
    TextAreaInput(KeyPress),
    /// Open menu at position
    OpenContextMenu(Option<CommitId>, (u16, u16)),
    /// Select action by index
    SelectContextMenuAction(usize),
    /// Next item in menu
    SelectContextMenuNext,
    /// Prev item in menu
    SelectContextMenuPrev,
    /// Close the menu
    CloseContextMenu,
    /// Next item in palette
    CommandPaletteNext,
    /// Prev item in palette
    CommandPalettePrev,
    /// Execute selected command
    CommandPaletteSelect,
    // Async Results (The "Callback")
    /// Fresh graph data arrived
    RepoLoaded(Box<RepoStatus>),
    /// Background refresh data arrived
    RepoReloadedBackground(Box<RepoStatus>),
    /// Additional graph data arrived
    GraphBatchLoaded(Box<RepoStatus>),
    /// Diff content for the selected commit
    DiffLoaded(CommitId, String),
    /// "Squashing..." (sets loading state)
    OperationStarted(String),
    /// Success/Failure message
    OperationCompleted(Result<String, String>),
    /// General error reporting
    ErrorOccurred(String),
    /// External change to the repo (jj op heads)
    ExternalChangeDetected,
    // Evolog
    /// Open evolog modal with content
    OpenEvolog(String),
    /// Close evolog modal
    CloseEvolog,
    /// Scroll evolog up
    ScrollEvologUp(u16),
    /// Scroll evolog down
    ScrollEvologDown(u16),
    // Operation Log
    /// Open operation log modal with content
    OpenOperationLog(String),
    /// Close operation log modal
    CloseOperationLog,
    /// Scroll operation log up
    ScrollOperationLogUp(u16),
    /// Scroll operation log down
    ScrollOperationLogDown(u16),
}

impl Action {
    /// `other` is a copy of `self`: equal, except that lists and repositories
    /// are compared by their contents.
    pub open spec fn copy_of(self, other: Action) -> bool {
        match (self, other) {
            (Action::RevertRevision(a), Action::RevertRevision(b)) => a@ == b@,
            (Action::RebaseRevision(a, d), Action::RebaseRevision(b, e)) => a@ == b@ && d == e,
            (Action::RepoLoaded(a), Action::RepoLoaded(b)) => a.same(*b),
            (Action::RepoReloadedBackground(a), Action::RepoReloadedBackground(b)) => a.same(*b),
            (Action::GraphBatchLoaded(a), Action::GraphBatchLoaded(b)) => a.same(*b),
            _ => self == other,
        }
    }
}

impl Clone for Action {
    fn clone(&self) -> (res: Self)
        ensures
            res.copy_of(*self),
    {
        match self {
            Action::Tick => Action::Tick,
            Action::Render => Action::Render,
            Action::Resize(a0, a1) => Action::Resize(*a0, *a1),
            Action::Quit => Action::Quit,
            Action::SelectNext => Action::SelectNext,
            Action::SelectPrev => Action::SelectPrev,
            Action::SelectIndex(a0) => Action::SelectIndex(*a0),
            Action::SelectFile(a0) => Action::SelectFile(*a0),
            Action::SelectFileByPath(a0) => Action::SelectFileByPath(a0.clone()),
            Action::SelectNextFile => Action::SelectNextFile,
            Action::SelectPrevFile => Action::SelectPrevFile,
            Action::ScrollDiffUp(a0) => Action::ScrollDiffUp(*a0),
            Action::ScrollDiffDown(a0) => Action::ScrollDiffDown(*a0),
            Action::NextHunk => Action::NextHunk,
            Action::PrevHunk => Action::PrevHunk,
            Action::ToggleDiffs => Action::ToggleDiffs,
            Action::ToggleSelection(a0) => Action::ToggleSelection(match a0 { Some(c) => Some(c.clone()), None => None }),
            Action::ClearSelection => Action::ClearSelection,
            Action::SnapshotWorkingCopy => Action::SnapshotWorkingCopy,
            Action::EditRevision(a0) => Action::EditRevision(match a0 { Some(c) => Some(c.clone()), None => None }),
            Action::SquashRevision => Action::SquashRevision,
            Action::NewRevision(a0) => Action::NewRevision(match a0 { Some(c) => Some(c.clone()), None => None }),
            Action::DescribeRevisionIntent => Action::DescribeRevisionIntent,
            Action::DescribeRevision(a0, a1) => Action::DescribeRevision(a0.clone(), a1.clone()),
            Action::CommitWorkingCopyIntent => Action::CommitWorkingCopyIntent,
            Action::CommitWorkingCopy(a0) => Action::CommitWorkingCopy(a0.clone()),
            Action::AbandonRevision(a0) => Action::AbandonRevision(match a0 { Some(c) => Some(c.clone()), None => None }),
            Action::RevertRevision(a0) => Action::RevertRevision({ let c = a0.clone(); assert(c@ =~= a0@); c }),
            Action::Absorb => Action::Absorb,
            Action::DuplicateRevision => Action::DuplicateRevision,
            Action::ParallelizeRevision => Action::ParallelizeRevision,
            Action::RebaseRevisionIntent => Action::RebaseRevisionIntent,
            Action::RebaseRevision(a0, a1) => Action::RebaseRevision({ let c = a0.clone(); assert(c@ =~= a0@); c }, a1.clone()),
            Action::SetBookmarkIntent => Action::SetBookmarkIntent,
            Action::SetBookmark(a0, a1) => Action::SetBookmark(a0.clone(), a1.clone()),
            Action::DeleteBookmarkIntent => Action::DeleteBookmarkIntent,
            Action::DeleteBookmark(a0) => Action::DeleteBookmark(a0.clone()),
            Action::SplitRevision(a0) => Action::SplitRevision(match a0 { Some(c) => Some(c.clone()), None => None }),
            Action::EvologRevision(a0) => Action::EvologRevision(match a0 { Some(c) => Some(c.clone()), None => None }),
            Action::OperationLog => Action::OperationLog,
            Action::Undo => Action::Undo,
            Action::Redo => Action::Redo,
            Action::Fetch => Action::Fetch,
            Action::PushIntent => Action::PushIntent,
            Action::Push(a0) => Action::Push(match a0 { Some(c) => Some(c.clone()), None => None }),
            Action::ResolveConflict(a0) => Action::ResolveConflict(a0.clone()),
            Action::LoadMoreGraph => Action::LoadMoreGraph,
            Action::InitRepo => Action::InitRepo,
            Action::EnterCommandMode => Action::EnterCommandMode,
            Action::EnterFilterMode => Action::EnterFilterMode,
            Action::ApplyFilter(a0) => Action::ApplyFilter(a0.clone()),
            Action::FilterMine => Action::FilterMine,
            Action::FilterTrunk => Action::FilterTrunk,
            Action::FilterConflicts => Action::FilterConflicts,
            Action::FilterAll => Action::FilterAll,
            Action::FilterHeads => Action::FilterHeads,
            Action::FilterBookmarks => Action::FilterBookmarks,
            Action::FilterImmutable => Action::FilterImmutable,
            Action::FilterMutable => Action::FilterMutable,
            Action::FilterEmpty => Action::FilterEmpty,
            Action::FilterDivergent => Action::FilterDivergent,
            Action::FilterMerges => Action::FilterMerges,
            Action::FilterTags => Action::FilterTags,
            Action::FilterRemoteBookmarks => Action::FilterRemoteBookmarks,
            Action::FilterWorking => Action::FilterWorking,
            Action::ClearFilter => Action::ClearFilter,
            Action::FilterNext => Action::FilterNext,
            Action::FilterPrev => Action::FilterPrev,
            Action::ToggleFilterSource => Action::ToggleFilterSource,
            Action::EnterSquashMode => Action::EnterSquashMode,
            Action::FocusDiff => Action::FocusDiff,
            Action::FocusGraph => Action::FocusGraph,
            Action::CancelMode => Action::CancelMode,
            Action::ToggleHelp => Action::ToggleHelp,
            Action::EnterThemeSelection => Action::EnterThemeSelection,
            Action::SelectThemeNext => Action::SelectThemeNext,
            Action::SelectThemePrev => Action::SelectThemePrev,
            Action::SwitchTheme(a0) => Action::SwitchTheme(*a0),
            Action::TextAreaInput(a0) => Action::TextAreaInput(*a0),
            Action::OpenContextMenu(a0, a1) => Action::OpenContextMenu(match a0 { Some(c) => Some(c.clone()), None => None }, *a1),
            Action::SelectContextMenuAction(a0) => Action::SelectContextMenuAction(*a0),
            Action::SelectContextMenuNext => Action::SelectContextMenuNext,
            Action::SelectContextMenuPrev => Action::SelectContextMenuPrev,
            Action::CloseContextMenu => Action::CloseContextMenu,
            Action::CommandPaletteNext => Action::CommandPaletteNext,
            Action::CommandPalettePrev => Action::CommandPalettePrev,
            Action::CommandPaletteSelect => Action::CommandPaletteSelect,
            Action::RepoLoaded(a0) => Action::RepoLoaded(Box::new((**a0).clone())),
            Action::RepoReloadedBackground(a0) => Action::RepoReloadedBackground(Box::new((**a0).clone())),
            Action::GraphBatchLoaded(a0) => Action::GraphBatchLoaded(Box::new((**a0).clone())),
            Action::DiffLoaded(a0, a1) => Action::DiffLoaded(a0.clone(), a1.clone()),
            Action::OperationStarted(a0) => Action::OperationStarted(a0.clone()),
            Action::OperationCompleted(a0) => Action::OperationCompleted(match a0 { Ok(c) => Ok(c.clone()), Err(c) => Err(c.clone()) }),
            Action::ErrorOccurred(a0) => Action::ErrorOccurred(a0.clone()),
            Action::ExternalChangeDetected => Action::ExternalChangeDetected,
            Action::OpenEvolog(a0) => Action::OpenEvolog(a0.clone()),
            Action::CloseEvolog => Action::CloseEvolog,
            Action::ScrollEvologUp(a0) => Action::ScrollEvologUp(*a0),
            Action::ScrollEvologDown(a0) => Action::ScrollEvologDown(*a0),
            Action::OpenOperationLog(a0) => Action::OpenOperationLog(a0.clone()),
            Action::CloseOperationLog => Action::CloseOperationLog,
            Action::ScrollOperationLogUp(a0) => Action::ScrollOperationLogUp(*a0),
            Action::ScrollOperationLogDown(a0) => Action::ScrollOperationLogDown(*a0),
        }
    }
}

} // verus!
