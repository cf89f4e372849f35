//! Screen layout: the header, body and footer areas and the two body panels.
use crate::app::state::AppState;
use ratatui::layout::{
    Constraint as TermConstraint, Direction as TermDirection, Layout, Rect as TermRect,
};
use vstd::prelude::*;

verus! {

/// A rectangle of terminal cells.
#[derive(PartialEq, Eq, Structural, Clone, Copy, Debug)]
pub struct Rect {
    pub x: u16,
    pub y: u16,
    pub width: u16,
    pub height: u16,
}

impl Rect {
    /// The empty rectangle at the origin.
    pub fn zero() -> (res: Rect)
        ensures
            res == (Rect { x: 0, y: 0, width: 0, height: 0 }),
    {
        Rect { x: 0, y: 0, width: 0, height: 0 }
    }
}

/// A size constraint on one part of a split.
#[derive(PartialEq, Eq, Structural, Clone, Copy, Debug)]
pub enum Constraint {
    Length(u16),
    Min(u16),
    Percentage(u16),
}

/// The direction in which an area is split.
#[derive(PartialEq, Eq, Structural, Clone, Copy, Debug)]
pub enum Direction {
    Vertical,
    Horizontal,
}

/// `area` as the terminal library takes it: its width and height cut so that
/// it ends within the range of coordinates.
pub open spec fn clamped(area: Rect) -> Rect {
    Rect {
        x: area.x,
        y: area.y,
        width: if area.width > u16::MAX - area.x {
            (u16::MAX - area.x) as u16
        } else {
            area.width
        },
        height: if area.height > u16::MAX - area.y {
            (u16::MAX - area.y) as u16
        } else {
            area.height
        },
    }
}

/// Each of `parts` spans the whole of `area` across the direction of the
/// split and lies within it along that direction.
pub open spec fn spans(area: Rect, direction: Direction, parts: Seq<Rect>) -> bool {
    forall|i: int|
        0 <= i < parts.len() ==> match direction {
            Direction::Horizontal => {
                &&& (#[trigger] parts[i]).y == area.y
                &&& parts[i].height == area.height
                &&& area.x <= parts[i].x
                &&& parts[i].x + parts[i].width <= area.x + area.width
            },
            Direction::Vertical => {
                &&& (#[trigger] parts[i]).x == area.x
                &&& parts[i].width == area.width
                &&& area.y <= parts[i].y
                &&& parts[i].y + parts[i].height <= area.y + area.height
            },
        }
}

/// `parts` come one after another along the direction of the split: each
/// ends where or before a later one starts.
pub open spec fn in_order(direction: Direction, parts: Seq<Rect>) -> bool {
    forall|i: int, j: int|
        0 <= i < j < parts.len() ==> match direction {
            Direction::Horizontal => (#[trigger] parts[i]).x + parts[i].width <= (#[trigger] parts[j]).x,
            Direction::Vertical => (#[trigger] parts[i]).y + parts[i].height <= (#[trigger] parts[j]).y,
        }
}

/// `parts` tile `area` in `direction`: each spans it across and lies within
/// it, and they come in order.
pub open spec fn tiles(area: Rect, direction: Direction, parts: Seq<Rect>) -> bool {
    spans(area, direction, parts) && in_order(direction, parts)
}

/// Splits `area` into one part per constraint, with the layout solver of the
/// terminal interface library (`Layout::split`, no margin, no spacing).
///
/// The solver keeps every split point within the area and each part's start
/// before its end as required constraints, and gives each part the area's
/// full extent across the split (`changes_to_rects`); so the parts span
/// `clamped(area)` across and lie within it. It keeps the gaps between parts
/// at zero with a weight (`SPACER_SIZE_EQ`) above the gain of one more cell
/// for any part under these constraints while fewer than about nine hundred
/// parts are asked for, so the parts then come in order. Where the parts end
/// is not stated: the solver's choice among equally good solutions depends on
/// the order in which a hash map with a random seed is walked.
#[verifier::external_body]
pub fn split_area(area: Rect, direction: Direction, constraints: &Vec<Constraint>) -> (res: Vec<Rect>)
    ensures
        res@.len() == constraints@.len(),
        spans(clamped(area), direction, res@),
        constraints@.len() <= 900 ==> in_order(direction, res@),
{
    let cs: Vec<TermConstraint> = constraints.iter().map(|c| match *c {
        Constraint::Length(n) => TermConstraint::Length(n),
        Constraint::Min(n) => TermConstraint::Min(n),
        Constraint::Percentage(n) => TermConstraint::Percentage(n),
    }).collect();
    let dir = match direction {
        Direction::Vertical => TermDirection::Vertical,
        Direction::Horizontal => TermDirection::Horizontal,
    };
    let r = TermRect::new(area.x, area.y, area.width, area.height);
    let parts = Layout::default().direction(dir).constraints(cs).split(r);
    parts.iter().map(|p| Rect { x: p.x, y: p.y, width: p.width, height: p.height }).collect()
}

/// The areas of the screen: `main` is header, body and footer; `body` is the
/// revision graph panel and the diff panel.
#[derive(Debug)]
pub struct AppLayout {
    pub main: Vec<Rect>,
    pub body: Vec<Rect>,
}

/// The constraints of the screen's rows: one line of header, the body, one line of footer.
pub open spec fn main_constraints() -> Seq<Constraint> {
    seq![Constraint::Length(1), Constraint::Min(0), Constraint::Length(1)]
}

/// The constraints of the body's two panels.
pub open spec fn body_constraints(show_diffs: bool, diff_ratio: u16) -> Seq<Constraint> {
    if show_diffs {
        seq![
            Constraint::Percentage(if diff_ratio <= 100 { (100 - diff_ratio) as u16 } else { 0 }),
            Constraint::Percentage(diff_ratio),
        ]
    } else {
        seq![Constraint::Percentage(100), Constraint::Percentage(0)]
    }
}

/// The constraints of the body's two panels (see `body_constraints`).
pub fn body_constraints_for(show_diffs: bool, diff_ratio: u16) -> (res: Vec<Constraint>)
    ensures
        res@ == body_constraints(show_diffs, diff_ratio),
{
    let cs = if show_diffs {
        vec![
            Constraint::Percentage(100u16.saturating_sub(diff_ratio)),
            Constraint::Percentage(diff_ratio),
        ]
    } else {
        vec![Constraint::Percentage(100), Constraint::Percentage(0)]
    };
    assert(cs@ =~= body_constraints(show_diffs, diff_ratio));
    cs
}

/// The screen's rows `main` and the body's panels `body` for `area`: three
/// rows top to bottom, each as wide as the area and inside it, and two panels
/// left to right (the revision graph, then the diff) inside the middle row,
/// each as tall as it.
pub open spec fn screen_split(area: Rect, main: Seq<Rect>, body: Seq<Rect>) -> bool {
    &&& main.len() == 3
    &&& body.len() == 2
    &&& tiles(clamped(area), Direction::Vertical, main)
    &&& tiles(main[1], Direction::Horizontal, body)
}

/// The layout of the screen for a state: the area split by the layout solver
/// into the rows of `main_constraints`, and the middle row into the panels of
/// `body_constraints` (the graph takes the whole body, or shares it with the
/// diff panel when diffs are shown). Where the solver ends each part is not
/// stated (see `split_area`); how the parts lie is (`screen_split`).
pub fn get_layout(area: Rect, app_state: &AppState) -> (res: AppLayout)
    ensures
        screen_split(area, res.main@, res.body@),
{
    let main_cs = vec![Constraint::Length(1), Constraint::Min(0), Constraint::Length(1)];
    assert(main_cs@ =~= main_constraints());
    let main = split_area(area, Direction::Vertical, &main_cs);
    let cs = body_constraints_for(app_state.show_diffs, app_state.diff_ratio);
    let middle = main[1];
    assert(clamped(middle) == middle);
    let body = split_area(middle, Direction::Horizontal, &cs);
    AppLayout { main, body }
}

} // verus!
