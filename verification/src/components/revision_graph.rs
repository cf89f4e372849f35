//! The revision graph view: row heights and the glyphs of the lanes.
use crate::app::state::{AppMode, Panel};
use crate::app::features::navigation::views;
use crate::domain::models::{CommitId, FileStatus, GraphRow, GraphRowVisual, RepoStatus};
use crate::text::{lines, text_lines};
use crate::text::{concat3, owned};
use vstd::prelude::*;

verus! {

broadcast use vstd::string::group_string_axioms;

/// The number of changed files a row lists: all of them when it is selected
/// and diffs are shown, else none.
pub open spec fn listed_files(row: GraphRow, is_selected: bool, show_diffs: bool) -> nat {
    if is_selected && show_diffs {
        row.changed_files@.len()
    } else {
        0
    }
}

/// The height of a row in lines: two, and one per listed file.
pub open spec fn row_height(row: GraphRow, is_selected: bool, show_diffs: bool) -> int {
    2 + (listed_files(row, is_selected, show_diffs) as u16)
}

/// The height of a row (see `row_height`).
pub fn calculate_row_height(row: &GraphRow, is_selected: bool, show_diffs: bool) -> (res: u16)
    requires
        row_height(*row, is_selected, show_diffs) <= u16::MAX,
    ensures
        res == row_height(*row, is_selected, show_diffs),
{
    let num_files = if is_selected && show_diffs {
        row.changed_files.len()
    } else {
        0
    };
    2 + #[verifier::truncate] (num_files as u16)
}

/// The glyph of a row's node: the working copy, an immutable revision, or
/// another.
pub open spec fn node_glyph(row: GraphRow) -> Seq<char> {
    if row.is_working_copy {
        "◉"@
    } else if row.is_immutable {
        "◆"@
    } else {
        "○"@
    }
}

/// The glyph of a row's node (see `node_glyph`).
pub fn node_symbol(row: &GraphRow) -> (res: &'static str)
    ensures
        res@ == node_glyph(*row),
{
    if row.is_working_copy {
        "◉"
    } else if row.is_immutable {
        "◆"
    } else {
        "○"
    }
}

/// Some parent lane lies left of, right of, or in the node's lane.
pub open spec fn parents_left(v: GraphRowVisual) -> bool {
    exists|i: int| 0 <= i < v.parent_columns@.len() && #[trigger] v.parent_columns@[i] < v.column
}

pub open spec fn parents_right(v: GraphRowVisual) -> bool {
    exists|i: int| 0 <= i < v.parent_columns@.len() && #[trigger] v.parent_columns@[i] > v.column
}

pub open spec fn parent_in(v: GraphRowVisual, lane: usize) -> bool {
    exists|i: int| 0 <= i < v.parent_columns@.len() && #[trigger] v.parent_columns@[i] == lane
}

/// The glyph under a node with several parents: a junction that opens to
/// the sides where parents lie and down when one stays in the lane.
pub open spec fn junction(left: bool, right: bool, down: bool) -> Seq<char> {
    if left && right && down {
        "┼"@
    } else if left && right {
        "┬"@
    } else if left && down {
        "┤"@
    } else if right && down {
        "├"@
    } else if left {
        "╮"@
    } else if right {
        "╭"@
    } else if down {
        "│"@
    } else {
        " "@
    }
}

/// The glyph of a lane on a connector line of a row: `line` counts the row's
/// lines from 0; the first connector line draws the edges to the parents,
/// the others only the lanes that continue below.
pub open spec fn connector_glyph(
    v: GraphRowVisual,
    lane: usize,
    line: u16,
    above: bool,
    below: bool,
) -> Seq<char> {
    let base = if below {
        "│"@
    } else {
        " "@
    };
    let pc = v.parent_columns@;
    if line != 1 {
        base
    } else if lane == v.column {
        if pc.len() > 1 {
            junction(parents_left(v), parents_right(v), parent_in(v, v.column))
        } else if pc.len() == 1 && pc[0] != v.column {
            if pc[0] < v.column {
                "╮"@
            } else {
                "╭"@
            }
        } else if pc.len() == 0 {
            " "@
        } else {
            "│"@
        }
    } else if parent_in(v, lane) {
        if above {
            if lane < v.column {
                "┤"@
            } else {
                "├"@
            }
        } else if lane < v.column {
            "╭"@
        } else {
            "╮"@
        }
    } else if v.parent_min < lane && lane < v.parent_max {
        if above {
            "┼"@
        } else {
            "─"@
        }
    } else {
        base
    }
}

fn any_parent_where(v: &GraphRowVisual, mode: u8, lane: usize) -> (res: bool)
    ensures
        mode == 0 ==> res == parents_left(*v),
        mode == 1 ==> res == parents_right(*v),
        mode == 2 ==> res == parent_in(*v, lane),
{
    let n = v.parent_columns.len();
    for i in 0..n
        invariant
            n == v.parent_columns@.len(),
            forall|j: int|
                0 <= j < i ==> !(if mode == 0 {
                    #[trigger] v.parent_columns@[j] < v.column
                } else if mode == 1 {
                    v.parent_columns@[j] > v.column
                } else {
                    v.parent_columns@[j] == lane
                }),
    {
        let p = v.parent_columns[i];
        let hit = if mode == 0 {
            p < v.column
        } else if mode == 1 {
            p > v.column
        } else {
            p == lane
        };
        if hit {
            return true;
        }
    }
    false
}

/// The glyph of a lane on a connector line (see `connector_glyph`).
pub fn connector_symbol(
    v: &GraphRowVisual,
    lane: usize,
    line: u16,
    above: bool,
    below: bool,
) -> (res: &'static str)
    ensures
        res@ == connector_glyph(*v, lane, line, above, below),
{
    let base = if below {
        "│"
    } else {
        " "
    };
    if line != 1 {
        return base;
    }
    let pc = &v.parent_columns;
    if lane == v.column {
        if pc.len() > 1 {
            let left = any_parent_where(v, 0, lane);
            let right = any_parent_where(v, 1, lane);
            let down = any_parent_where(v, 2, v.column);
            if left && right && down {
                "┼"
            } else if left && right {
                "┬"
            } else if left && down {
                "┤"
            } else if right && down {
                "├"
            } else if left {
                "╮"
            } else if right {
                "╭"
            } else if down {
                "│"
            } else {
                " "
            }
        } else if pc.len() == 1 && pc[0] != v.column {
            if pc[0] < v.column {
                "╮"
            } else {
                "╭"
            }
        } else if pc.len() == 0 {
            " "
        } else {
            "│"
        }
    } else if any_parent_where(v, 2, lane) {
        if above {
            if lane < v.column {
                "┤"
            } else {
                "├"
            }
        } else if lane < v.column {
            "╭"
        } else {
            "╮"
        }
    } else if v.parent_min < lane && lane < v.parent_max {
        if above {
            "┼"
        } else {
            "─"
        }
    } else {
        base
    }
}

/// Seconds in a day.
pub const DAY_SECS: i64 = 86_400;

/// How faded the lanes of a commit are drawn, from its age: level 0 (full
/// brightness) up to a week, 1 up to 30 days, 2 up to 180 days, 3 beyond. A
/// commit dated in the future counts as new. (The age in days as a float,
/// compared with 7, 30 and 180, falls in the same level.)
pub open spec fn age_level_of(now_secs: int, timestamp_secs: int) -> u8 {
    let age = if now_secs - timestamp_secs > 0 {
        now_secs - timestamp_secs
    } else {
        0
    };
    if age < 7 * DAY_SECS {
        0
    } else if age < 30 * DAY_SECS {
        1
    } else if age < 180 * DAY_SECS {
        2
    } else {
        3
    }
}

/// The fading level of a commit's lanes (see `age_level_of`).
pub fn age_level(now_secs: i64, timestamp_secs: i64) -> (res: u8)
    requires
        i64::MIN <= now_secs - timestamp_secs <= i64::MAX,
    ensures
        res == age_level_of(now_secs as int, timestamp_secs as int),
{
    let diff = now_secs - timestamp_secs;
    let age = if diff > 0 {
        diff
    } else {
        0
    };
    if age < 7 * DAY_SECS {
        0
    } else if age < 30 * DAY_SECS {
        1
    } else if age < 180 * DAY_SECS {
        2
    } else {
        3
    }
}

/// The message of a graph without rows: under the filter `conflicts()`
/// there are no conflicts, under another filter it found nothing, and
/// without a filter the repository is empty.
pub open spec fn empty_graph_text(revset: Option<Seq<char>>) -> Seq<char> {
    match revset {
        Some(r) => if r == "conflicts()"@ {
            " \u{1F389} No Conflicts Found "@
        } else {
            " No results for: "@ + r + " "@
        },
        None => " Repository is empty "@,
    }
}

/// The message of a graph without rows (see `empty_graph_text`).
pub fn empty_graph_message(revset: Option<&str>) -> (res: String)
    ensures
        res@ == empty_graph_text(
            match revset {
                Some(r) => Some(r@),
                None => None,
            },
        ),
{
    match revset {
        Some(r) => {
            if owned(r) == owned("conflicts()") {
                owned(" \u{1F389} No Conflicts Found ")
            } else {
                concat3(" No results for: ", r, " ")
            }
        },
        None => owned(" Repository is empty "),
    }
}

/// How the graph panel's frame is drawn.
#[derive(Clone, Copy, Debug, PartialEq, Eq, Structural)]
pub enum PanelLook {
    /// The graph has the focus and the body is in use: a full thick frame.
    Focused,
    /// The body is in use and the diff has the focus: a plain right border.
    Active,
    /// A pop-up or another screen is in front: a dimmed right border.
    Inactive,
}

/// The body is in use: the mode is the normal view or the diff view.
pub open spec fn body_active(mode: AppMode) -> bool {
    mode == AppMode::Normal || mode == AppMode::Diff
}

/// The look of the graph panel's frame.
pub fn panel_look(focused_panel: Panel, mode: AppMode) -> (res: PanelLook)
    ensures
        res == (if focused_panel == Panel::Graph && body_active(mode) {
            PanelLook::Focused
        } else if body_active(mode) {
            PanelLook::Active
        } else {
            PanelLook::Inactive
        }),
{
    let active = matches!(mode, AppMode::Normal | AppMode::Diff);
    if matches!(focused_panel, Panel::Graph) && active {
        PanelLook::Focused
    } else if active {
        PanelLook::Active
    } else {
        PanelLook::Inactive
    }
}

/// The lane is drawn as in use in `lanes`.
pub open spec fn lane_on(lanes: Seq<bool>, lane: int) -> bool {
    0 <= lane < lanes.len() && lanes[lane]
}

/// The number of lanes a row draws: those in use above or below it.
pub open spec fn lane_count(v: GraphRowVisual) -> nat {
    if v.active_lanes@.len() >= v.connector_lanes@.len() {
        v.active_lanes@.len()
    } else {
        v.connector_lanes@.len()
    }
}

/// The glyph of a lane on a line of a row's graph column: on the first line
/// the node in its own lane and a pipe in every other lane in use; below,
/// the connectors (see `connector_glyph`).
pub open spec fn graph_cell(row: GraphRow, line: u16, lane: usize) -> Seq<char> {
    let v = row.visual;
    if line == 0 {
        if lane == v.column {
            node_glyph(row)
        } else if lane_on(v.active_lanes@, lane as int) {
            "│"@
        } else {
            " "@
        }
    } else {
        connector_glyph(
            v,
            lane,
            line,
            lane_on(v.active_lanes@, lane as int),
            lane_on(v.connector_lanes@, lane as int),
        )
    }
}

/// Whether the lane is in use in `lanes`.
fn lane_in_use(lanes: &Vec<bool>, lane: usize) -> (res: bool)
    ensures
        res == lane_on(lanes@, lane as int),
{
    lane < lanes.len() && lanes[lane]
}

/// The glyphs of a row's graph column, `height` lines of one glyph per lane
/// (see `graph_cell`).
pub fn graph_lines(row: &GraphRow, height: u16) -> (res: Vec<Vec<&'static str>>)
    ensures
        res@.len() == height,
        forall|h: int|
            0 <= h < height ==> (#[trigger] res@[h])@.len() == lane_count(row.visual),
        forall|h: int, lane: int|
            0 <= h < height && 0 <= lane < lane_count(row.visual) ==> (#[trigger] res@[h]@[lane])@
                == graph_cell(*row, h as u16, lane as usize),
{
    let v = &row.visual;
    let lanes = if v.active_lanes.len() >= v.connector_lanes.len() {
        v.active_lanes.len()
    } else {
        v.connector_lanes.len()
    };
    let mut res: Vec<Vec<&'static str>> = Vec::new();
    let mut h: u16 = 0;
    while h < height
        invariant
            h <= height,
            lanes == lane_count(row.visual),
            v == &row.visual,
            res@.len() == h,
            forall|k: int| 0 <= k < h ==> (#[trigger] res@[k])@.len() == lanes,
            forall|k: int, lane: int|
                0 <= k < h && 0 <= lane < lanes ==> (#[trigger] res@[k]@[lane])@ == graph_cell(
                    *row,
                    k as u16,
                    lane as usize,
                ),
        decreases height - h,
    {
        let mut line: Vec<&'static str> = Vec::new();
        for lane in 0..lanes
            invariant
                lanes == lane_count(row.visual),
                v == &row.visual,
                line@.len() == lane,
                forall|j: int| 0 <= j < lane ==> (#[trigger] line@[j])@ == graph_cell(*row, h, j as usize),
        {
            let above = lane_in_use(&v.active_lanes, lane);
            let glyph = if h == 0 {
                if lane == v.column {
                    node_symbol(row)
                } else if above {
                    "│"
                } else {
                    " "
                }
            } else {
                connector_symbol(v, lane, h, above, lane_in_use(&v.connector_lanes, lane))
            };
            line.push(glyph);
        }
        res.push(line);
        h += 1;
    }
    res
}

/// The description line of a row: the description's first line, or nothing
/// when that is empty (the view then says that no description is set).
pub open spec fn description_text(desc: Seq<char>) -> Option<Seq<char>> {
    let ls = text_lines(desc);
    if ls.len() > 0 && ls[0].len() > 0 {
        Some(ls[0])
    } else {
        None
    }
}

/// The description line of a row (see `description_text`).
pub fn description_line(row: &GraphRow) -> (res: Option<String>)
    ensures
        match res {
            Some(l) => description_text(row.description@) == Some(l@),
            None => description_text(row.description@) is None,
        },
{
    let ls = lines(row.description.as_str());
    proof {
        assert(views(ls@) == text_lines(row.description@));
    }
    if ls.len() > 0 && !ls[0].as_str().is_empty() {
        assert(ls@[0]@ == text_lines(row.description@)[0]);
        Some(ls[0].clone())
    } else {
        proof {
            if ls.len() > 0 {
                assert(ls@[0]@ == text_lines(row.description@)[0]);
            }
        }
        None
    }
}

/// The mark before a changed file: added, modified, deleted, conflicted.
pub open spec fn file_mark(status: FileStatus) -> Seq<char> {
    match status {
        FileStatus::Added => "+ "@,
        FileStatus::Modified => "~ "@,
        FileStatus::Deleted => "- "@,
        FileStatus::Conflicted => "! "@,
    }
}

/// The mark before a changed file (see `file_mark`).
pub fn file_prefix(status: FileStatus) -> (res: &'static str)
    ensures
        res@ == file_mark(status),
{
    match status {
        FileStatus::Added => "+ ",
        FileStatus::Modified => "~ ",
        FileStatus::Deleted => "- ",
        FileStatus::Conflicted => "! ",
    }
}

/// The revision graph as drawn: the loaded rows, whether the selected row
/// lists its files, which file is selected, the marked revisions, and the
/// time by which ages are judged.
pub struct RevisionGraph<'a> {
    pub repo: &'a RepoStatus,
    pub show_diffs: bool,
    pub selected_file_index: Option<usize>,
    pub selected_ids: &'a Vec<CommitId>,
    pub now_secs: i64,
}

/// What a row of the graph shows, apart from its texts.
pub struct RowView {
    /// Lines the row takes.
    pub height: u16,
    /// How faded its lanes are (see `age_level_of`).
    pub age: u8,
    /// The glyphs of its graph column (see `graph_lines`).
    pub graph: Vec<Vec<&'static str>>,
    /// Its description line (see `description_text`).
    pub description: Option<String>,
    /// It is marked for a multi-revision operation.
    pub highlighted: bool,
}

/// Whether `ids` holds an identifier with the text of `id`.
fn contains_id(ids: &Vec<CommitId>, id: &CommitId) -> (res: bool)
    ensures
        res == exists|k: int| 0 <= k < ids@.len() && #[trigger] ids@[k]@ == id@,
{
    let n = ids.len();
    for k in 0..n
        invariant
            n == ids@.len(),
            forall|j: int| 0 <= j < k ==> #[trigger] ids@[j]@ != id@,
    {
        if ids[k].same_as(id) {
            return true;
        }
    }
    false
}

impl<'a> RevisionGraph<'a> {
    /// The revision is marked.
    pub open spec fn marked(self, id: Seq<char>) -> bool {
        exists|k: int| 0 <= k < self.selected_ids@.len() && #[trigger] self.selected_ids@[k]@ == id
    }

    /// What the `i`-th row shows, the selected row or another.
    pub fn row_view(&self, i: usize, is_selected: bool) -> (res: RowView)
        requires
            i < self.repo.graph@.len(),
            row_height(self.repo.graph@[i as int], is_selected, self.show_diffs) <= u16::MAX,
            i64::MIN <= self.now_secs - self.repo.graph@[i as int].timestamp_secs <= i64::MAX,
        ensures
            ({
                let row = self.repo.graph@[i as int];
                &&& res.height == row_height(row, is_selected, self.show_diffs)
                &&& res.age == age_level_of(self.now_secs as int, row.timestamp_secs as int)
                &&& res.graph@.len() == res.height
                &&& forall|h: int| 0 <= h < res.height ==> (#[trigger] res.graph@[h])@.len()
                    == lane_count(row.visual)
                &&& forall|h: int, lane: int|
                    0 <= h < res.height && 0 <= lane < lane_count(row.visual) ==> (
                    #[trigger] res.graph@[h]@[lane])@ == graph_cell(row, h as u16, lane as usize)
                &&& match res.description {
                    Some(l) => description_text(row.description@) == Some(l@),
                    None => description_text(row.description@) is None,
                }
                &&& res.highlighted == self.marked(row.commit_id@)
            }),
    {
        let row = &self.repo.graph[i];
        let height = calculate_row_height(row, is_selected, self.show_diffs);
        let age = age_level(self.now_secs, row.timestamp_secs);
        let graph = graph_lines(row, height);
        let description = description_line(row);
        let highlighted = contains_id(self.selected_ids, &row.commit_id);
        RowView { height, age, graph, description, highlighted }
    }
}

/// What the graph panel holds inside its frame.
#[derive(Debug)]
pub enum PanelContent {
    /// No repository is loaded yet: the logo and the spinner.
    Loading,
    /// The graph has no rows: this message.
    Empty(String),
    /// The rows of the graph.
    Graph,
}

/// The graph panel: the frame around the revision graph, with the loading
/// and empty states.
pub struct RevisionGraphPanel<'a> {
    pub repo: Option<&'a RepoStatus>,
    pub show_diffs: bool,
    pub selected_file_index: Option<usize>,
    pub spinner: &'a str,
    pub focused_panel: Panel,
    pub mode: AppMode,
    pub revset: Option<&'a str>,
    pub selected_ids: &'a Vec<CommitId>,
}

impl<'a> RevisionGraphPanel<'a> {
    /// The look of the frame (see `panel_look`).
    pub fn look(&self) -> (res: PanelLook)
        ensures
            res == (if self.focused_panel == Panel::Graph && body_active(self.mode) {
                PanelLook::Focused
            } else if body_active(self.mode) {
                PanelLook::Active
            } else {
                PanelLook::Inactive
            }),
    {
        panel_look(self.focused_panel, self.mode)
    }

    /// What the frame holds: loading without a repository, the message of
    /// `empty_graph_text` for a graph without rows, else the rows.
    pub fn content(&self) -> (res: PanelContent)
        ensures
            match self.repo {
                None => res is Loading,
                Some(r) => if r.graph@.len() == 0 {
                    res matches PanelContent::Empty(m) && m@ == empty_graph_text(
                        match self.revset {
                            Some(v) => Some(v@),
                            None => None,
                        },
                    )
                } else {
                    res is Graph
                },
            },
    {
        match self.repo {
            None => PanelContent::Loading,
            Some(r) => {
                if r.graph.len() == 0 {
                    PanelContent::Empty(empty_graph_message(self.revset))
                } else {
                    PanelContent::Graph
                }
            },
        }
    }
}

} // verus!
