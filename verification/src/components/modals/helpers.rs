//! Placing a pop-up window centred in an area.
use crate::app::ui::{clamped, split_area, Constraint, Direction, Rect};
use vstd::prelude::*;

verus! {

/// The constraints that centre a part of `percent` percent between two
/// equal margins.
pub open spec fn centred_percentages(percent: u16) -> Seq<Constraint> {
    let margin = (if percent <= 100 {
        100 - percent
    } else {
        0
    }) / 2;
    seq![
        Constraint::Percentage(margin as u16),
        Constraint::Percentage(if percent <= 100 {
            percent
        } else {
            100
        }),
        Constraint::Percentage(margin as u16),
    ]
}

/// The constraints that centre a part of `height` lines in `r`.
pub open spec fn centred_lines(height: u16, r: Rect) -> Seq<Constraint> {
    seq![
        Constraint::Length((if r.height >= height {
            r.height - height
        } else {
            0
        }) as u16 / 2),
        Constraint::Length(if height <= r.height {
            height
        } else {
            r.height
        }),
        Constraint::Min(0),
    ]
}

/// The constraints that centre a part of `percent` percent (see
/// `centred_percentages`).
pub fn percentages(percent: u16) -> (res: Vec<Constraint>)
    ensures
        res@ == centred_percentages(percent),
{
    let margin = 100u16.saturating_sub(percent) / 2;
    let v = vec![
        Constraint::Percentage(margin),
        Constraint::Percentage(if percent < 100 {
            percent
        } else {
            100
        }),
        Constraint::Percentage(margin),
    ];
    assert(v@ =~= centred_percentages(percent));
    v
}

/// The constraints that centre a part of `height` lines in `r` (see
/// `centred_lines`).
pub fn line_constraints(height: u16, r: Rect) -> (res: Vec<Constraint>)
    ensures
        res@ == centred_lines(height, r),
{
    let v = vec![
        Constraint::Length(r.height.saturating_sub(height) / 2),
        Constraint::Length(if height < r.height {
            height
        } else {
            r.height
        }),
        Constraint::Min(0),
    ];
    assert(v@ =~= centred_lines(height, r));
    v
}

/// `inner` lies within `outer`.
pub open spec fn lies_within(inner: Rect, outer: Rect) -> bool {
    &&& outer.x <= inner.x
    &&& inner.x + inner.width <= outer.x + outer.width
    &&& outer.y <= inner.y
    &&& inner.y + inner.height <= outer.y + outer.height
}

/// A rectangle `percent_x` percent as wide and `percent_y` percent as high
/// as `r`, centred in it: the middle of the rows of `centred_percentages`,
/// split into the columns of `centred_percentages`, as the layout solver
/// places them (see `split_area`). It lies within `r`.
pub fn centered_rect(percent_x: u16, percent_y: u16, r: Rect) -> (res: Rect)
    ensures
        lies_within(res, clamped(r)),
{
    let rows = split_area(r, Direction::Vertical, &percentages(percent_y));
    assert(clamped(rows[1]) == rows[1]);
    let cols = split_area(rows[1], Direction::Horizontal, &percentages(percent_x));
    cols[1]
}

/// A rectangle `percent_x` percent as wide as `r` and `height` lines high,
/// centred in it: the middle of the rows of `centred_lines`, split into the
/// columns of `centred_percentages`, as the layout solver places them (see
/// `split_area`). It lies within `r`.
pub fn centered_rect_fixed_height(percent_x: u16, height: u16, r: Rect) -> (res: Rect)
    ensures
        lies_within(res, clamped(r)),
{
    let v = line_constraints(height, r);
    let rows = split_area(r, Direction::Vertical, &v);
    assert(clamped(rows[1]) == rows[1]);
    let cols = split_area(rows[1], Direction::Horizontal, &percentages(percent_x));
    cols[1]
}

} // verus!
