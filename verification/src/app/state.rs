//! The application state.
use crate::app::keymap::{KeyConfig, KeyMap};
use crate::domain::models::{
    first_occurrences, holds_id, ids_unique, lemma_first_occurrences, unique_ids, CommitId, FileChange,
    FileStatus, GraphRow, RepoStatus,
};
use crate::theme::PaletteType;
use vstd::prelude::*;

pub mod command_palette;
pub mod context_menu;
pub mod error;
pub mod extra;
pub mod header;
pub mod input;
pub mod log;
pub mod revset;
pub mod theme;

pub use command_palette::CommandPaletteState;
pub use context_menu::ContextMenuState;
pub use error::{ErrorSeverity, ErrorState};
pub use extra::{EvologState, OperationLogState};
pub use header::HeaderState;
pub use input::{AppTextArea, InputState};
pub use log::{LogState, Panel, TableSelection};
pub use revset::{get_revset_reference, RevsetCategory, RevsetEntry};
pub use theme::ThemeSelectionState;

verus! {

broadcast use vstd::string::group_string_axioms;

/// What the interface is doing: which view or modal has the input.
#[derive(PartialEq, Eq, Structural, Clone, Copy, Debug)]
pub enum AppMode {
    /// Navigating the log.
    Normal,
    /// Selecting a target to squash into.
    SquashSelect,
    /// Inputting a bookmark name.
    BookmarkInput,
    /// Inputting a commit message.
    CommitInput,
    /// A generic text input (a revision description).
    Input,
    /// Waiting for an operation.
    Loading,
    /// Focusing the diff panel.
    Diff,
    /// A menu of actions is open.
    ContextMenu,
    /// Inputting a revset filter.
    FilterInput,
    /// Showing the help overlay.
    Help,
    /// No repository found: the welcome screen.
    NoRepo,
    /// The command palette is open.
    CommandPalette,
    /// Choosing a theme.
    ThemeSelection,
    /// Inputting a rebase destination.
    RebaseInput,
    /// Selecting a rebase destination.
    RebaseSelect,
    /// Viewing the evolution log of a revision.
    Evolog,
    /// Viewing the operation log.
    OperationLog,
}

/// The whole state of the interface.
#[derive(Debug)]
pub struct AppState {
    // Status
    pub should_quit: bool,
    pub mode: AppMode,
    pub last_error: Option<ErrorState>,
    pub status_message: Option<String>,
    /// When the status message is cleared, in milliseconds since the Unix epoch.
    pub status_clear_time: Option<i64>,
    pub workspace_id: String,
    pub active_tasks: Vec<String>,
    // Repository data
    pub repo: Option<RepoStatus>,
    pub revset: Option<String>,
    pub is_loading_more: bool,
    pub has_more: bool,
    // Log panel
    pub log: LogState,
    // Derived data
    pub show_diffs: bool,
    pub header_state: HeaderState,
    pub spinner: String,
    // Text input
    pub input: Option<InputState>,
    // Clicks (time in milliseconds since the Unix epoch, and cell)
    pub last_click_time: Option<i64>,
    pub last_click_pos: Option<(u16, u16)>,
    // Pop-ups
    pub context_menu: Option<ContextMenuState>,
    pub command_palette: Option<CommandPaletteState>,
    pub theme_selection: Option<ThemeSelectionState>,
    // Animation
    pub frame_count: u64,
    /// When a hunk jump was highlighted, in milliseconds since the Unix epoch.
    pub hunk_highlight_time: Option<i64>,
    // Layout
    pub diff_ratio: u16,
    pub focused_panel: Panel,
    // Configuration
    pub keymap: KeyMap,
    pub palette_type: PaletteType,
    // Filters
    pub recent_filters: Vec<String>,
    pub preset_filters: Vec<String>,
    pub selected_filter_index: Option<usize>,
    pub is_selecting_presets: bool,
    // Logs
    pub evolog_state: Option<EvologState>,
    pub operation_log_state: Option<OperationLogState>,
    // Rebase
    pub rebase_sources: Vec<CommitId>,
}

/// The preset revset filters offered in the filter input.
pub open spec fn preset_filters_spec() -> Seq<Seq<char>> {
    seq![
        "all()"@,
        "mine()"@,
        "trunk()"@,
        "mutable()"@,
        "immutable()"@,
        "visible_heads()"@,
        "bookmarks()"@,
        "remote_bookmarks()"@,
        "tracked_remote_bookmarks()"@,
        "tags()"@,
        "conflicts()"@,
        "divergent()"@,
        "empty()"@,
        "merges()"@,
        "signed()"@,
        "heads(all())"@,
        "roots(all())"@,
        "ancestors(@)"@,
        "descendants(@)"@,
        "working_copies()"@,
    ]
}

/// The preset revset filters (see `preset_filters_spec`).
pub fn default_preset_filters() -> (res: Vec<String>)
    ensures
        res@.map_values(|s: String| s@) == preset_filters_spec(),
{
    let res = vec![
        // Scope
        "all()".to_string(),
        "mine()".to_string(),
        "trunk()".to_string(),
        "mutable()".to_string(),
        "immutable()".to_string(),
        "visible_heads()".to_string(),
        // Bookmarks and tags
        "bookmarks()".to_string(),
        "remote_bookmarks()".to_string(),
        "tracked_remote_bookmarks()".to_string(),
        "tags()".to_string(),
        // Conflicts and state
        "conflicts()".to_string(),
        "divergent()".to_string(),
        "empty()".to_string(),
        "merges()".to_string(),
        "signed()".to_string(),
        // Ancestry
        "heads(all())".to_string(),
        "roots(all())".to_string(),
        "ancestors(@)".to_string(),
        "descendants(@)".to_string(),
        "working_copies()".to_string(),
    ];
    assert(res@.map_values(|s: String| s@) =~= preset_filters_spec());
    res
}

impl AppState {
    /// The row under the selection, if the selection is within the graph.
    pub open spec fn selected_row(self) -> Option<GraphRow> {
        match (self.repo, self.log.list_state.selected) {
            (Some(repo), Some(i)) => if i < repo.graph@.len() {
                Some(repo.graph@[i as int])
            } else {
                None
            },
            _ => None,
        }
    }

    /// The file under the file selection of the selected row.
    pub open spec fn selected_file(self) -> Option<FileChange> {
        match (self.selected_row(), self.log.selected_file_index) {
            (Some(row), Some(f)) => if f < row.changed_files@.len() {
                Some(row.changed_files@[f as int])
            } else {
                None
            },
            _ => None,
        }
    }

    /// The revisions an operation applies to: the marked ones, each once, or
    /// else the selected row's commit.
    pub open spec fn selected_commit_ids(self) -> Seq<CommitId> {
        if self.log.selected_ids@.len() > 0 {
            first_occurrences(self.log.selected_ids@)
        } else {
            match self.selected_row() {
                Some(row) => seq![row.commit_id],
                None => Seq::empty(),
            }
        }
    }

    /// The state at start-up, with key bindings from `config`.
    /// The recent filters start empty; the caller loads them.
    pub fn new(config: KeyConfig) -> (res: Self)
        ensures
            res.is_initial_except_keymap(),
            res.keymap.global@ == crate::app::keymap::vim_global() + match config.custom {
                Some(c) => crate::app::keymap::custom_bindings(c@),
                None => Seq::empty(),
            },
    {
        let mut s = Self::default();
        s.keymap = KeyMap::from_config(&config);
        s
    }

    /// The start-up state (every field but the key bindings).
    pub open spec fn is_initial_except_keymap(self) -> bool {
        &&& !self.should_quit
        &&& self.mode == AppMode::Normal
        &&& self.last_error is None
        &&& self.status_message is None
        &&& self.status_clear_time is None
        &&& self.workspace_id@ == Seq::<char>::empty()
        &&& self.active_tasks@.len() == 0
        &&& self.repo is None
        &&& self.revset is None
        &&& !self.is_loading_more
        &&& self.has_more
        &&& self.log.list_state == (TableSelection { selected: None, offset: 0 })
        &&& self.log.selected_file_index is None
        &&& self.log.current_diff is None
        &&& !self.log.is_loading_diff
        &&& self.log.diff_scroll == 0
        &&& (forall|id: Seq<char>| #[trigger] self.log.diff_cache.lookup(id) is None)
        &&& self.log.selected_ids@.len() == 0
        &&& !self.show_diffs
        &&& self.spinner@ == "⠋"@
        &&& self.input is None
        &&& self.last_click_time is None
        &&& self.last_click_pos is None
        &&& self.context_menu is None
        &&& self.command_palette is None
        &&& self.theme_selection is None
        &&& self.frame_count == 0
        &&& self.hunk_highlight_time is None
        &&& self.diff_ratio == 50
        &&& self.focused_panel == Panel::Graph
        &&& self.palette_type == PaletteType::CatppuccinMocha
        &&& self.recent_filters@.len() == 0
        &&& self.preset_filters@.map_values(|s: String| s@) == preset_filters_spec()
        &&& self.selected_filter_index is None
        &&& !self.is_selecting_presets
        &&& self.evolog_state is None
        &&& self.operation_log_state is None
        &&& self.rebase_sources@.len() == 0
        &&& self.header_state.repo_text@ == " no repo "@
        &&& self.header_state.branch_text@ == " (detached) "@
        &&& self.header_state.stats_text@ == Seq::<char>::empty()
        &&& self.header_state.wc_text@ == " Loading... "@
        &&& self.header_state.op_text@ == " OP: ........ "@
    }

    /// The start-up state with the vim key bindings.
    pub open spec fn is_initial(self) -> bool {
        &&& self.is_initial_except_keymap()
        &&& self.keymap.global@ == crate::app::keymap::vim_global()
        &&& self.keymap.diff_mode@ == crate::app::keymap::vim_diff_mode()
    }

    /// The state's invariant: an open menu or theme picker has an entry
    /// highlighted, the palette's and filter list's highlights are on an
    /// entry or at the top, and no revision is marked twice.
    pub open spec fn wf(self) -> bool {
        &&& (self.context_menu matches Some(m) ==> 0 < m.actions@.len() && m.selected_index
            < m.actions@.len())
        &&& (self.theme_selection matches Some(t) ==> 0 < t.themes@.len() && t.selected_index
            < t.themes@.len())
        &&& (self.command_palette matches Some(cp) ==> cp.selected_index == 0
            || cp.selected_index < cp.matches@.len())
        &&& (self.selected_filter_index matches Some(i) ==> i == 0 || i < (
        if self.is_selecting_presets {
            self.preset_filters@.len()
        } else {
            self.recent_filters@.len()
        }))
        &&& ids_unique(self.log.selected_ids@)
    }

    /// The mode that the focused panel gives when nothing else has the input.
    pub open spec fn panel_mode(self) -> AppMode {
        match self.focused_panel {
            Panel::Graph => AppMode::Normal,
            Panel::Diff => AppMode::Diff,
        }
    }

    /// The mode that the focused panel gives (see `panel_mode`).
    pub fn panel_mode_exec(&self) -> (res: AppMode)
        ensures
            res == self.panel_mode(),
    {
        match self.focused_panel {
            Panel::Graph => AppMode::Normal,
            Panel::Diff => AppMode::Diff,
        }
    }

    /// The file under the file selection (see `selected_file`).
    pub fn get_selected_file(&self) -> (res: Option<&FileChange>)
        ensures
            match res {
                Some(f) => self.selected_file() == Some(*f),
                None => self.selected_file() is None,
            },
    {
        if let (Some(repo), Some(idx)) = (&self.repo, self.log.list_state.selected()) {
            if idx < repo.graph.len() {
                let row = &repo.graph[idx];
                if let Some(file_idx) = self.log.selected_file_index {
                    if file_idx < row.changed_files.len() {
                        return Some(&row.changed_files[file_idx]);
                    }
                }
            }
        }
        None
    }

    /// Whether the file under the file selection has conflicts.
    pub fn is_selected_file_conflicted(&self) -> (res: bool)
        ensures
            res == (self.selected_file() matches Some(f) && f.status == FileStatus::Conflicted),
    {
        match self.get_selected_file() {
            Some(f) => f.status == FileStatus::Conflicted,
            None => false,
        }
    }

    /// The revisions an operation applies to (see `selected_commit_ids`).
    pub fn get_selected_commit_ids(&self) -> (res: Vec<CommitId>)
        ensures
            res@ == self.selected_commit_ids(),
            ids_unique(res@),
            self.log.selected_ids@.len() > 0 ==> forall|id: Seq<char>| #[trigger] holds_id(res@, id)
                == holds_id(self.log.selected_ids@, id),
    {
        proof {
            lemma_first_occurrences(self.log.selected_ids@);
        }
        if self.log.selected_ids.len() > 0 {
            unique_ids(&self.log.selected_ids)
        } else if let (Some(repo), Some(idx)) = (&self.repo, self.log.list_state.selected()) {
            if idx < repo.graph.len() {
                let v = vec![repo.graph[idx].commit_id.clone()];
                assert(v@ =~= seq![repo.graph@[idx as int].commit_id]);
                return v;
            }
            Vec::new()
        } else {
            Vec::new()
        }
    }
}

impl Default for AppState {
    /// The state at start-up.
    fn default() -> (res: Self)
        ensures
            res.is_initial(),
    {
        AppState {
            should_quit: false,
            mode: AppMode::Normal,
            last_error: None,
            status_message: None,
            status_clear_time: None,
            workspace_id: String::new(),
            active_tasks: Vec::new(),
            repo: None,
            revset: None,
            is_loading_more: false,
            has_more: true,
            log: LogState::default(),
            show_diffs: false,
            header_state: HeaderState::default(),
            spinner: "⠋".to_string(),
            input: None,
            last_click_time: None,
            last_click_pos: None,
            context_menu: None,
            command_palette: None,
            theme_selection: None,
            frame_count: 0,
            hunk_highlight_time: None,
            diff_ratio: 50,
            focused_panel: Panel::Graph,
            keymap: KeyMap::from_config(&KeyConfig::default()),
            palette_type: PaletteType::CatppuccinMocha,
            recent_filters: Vec::new(),
            preset_filters: default_preset_filters(),
            selected_filter_index: None,
            is_selecting_presets: false,
            evolog_state: None,
            operation_log_state: None,
            rebase_sources: Vec::new(),
        }
    }
}

} // verus!
