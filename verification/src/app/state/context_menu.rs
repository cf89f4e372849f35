use crate::app::action::Action;
use crate::app::ui::Rect;
use crate::domain::models::CommitId;
use vstd::prelude::*;

verus! {

/// A pop-up menu of actions for one revision, opened at a terminal cell.
#[derive(Debug)]
pub struct ContextMenuState {
    pub commit_id: CommitId,
    pub x: u16,
    pub y: u16,
    pub selected_index: usize,
    /// Each item's label and the action it runs.
    pub actions: Vec<(String, Action)>,
}

/// Length in bytes of a text, as `str::len` gives it.
pub open spec fn byte_len(s: Seq<char>) -> nat {
    (vstd::utf8::encode_utf8(s).len() as usize) as nat
}

/// Largest label length of `items` (0 for no items).
pub open spec fn longest_label(items: Seq<(String, Action)>) -> nat
    decreases items.len(),
{
    if items.len() == 0 {
        0
    } else {
        let m = longest_label(items.drop_last());
        let l = byte_len(items.last().0@);
        if l > m {
            l
        } else {
            m
        }
    }
}

impl ContextMenuState {
    /// The menu's rectangle fits the terminal area (see `calculate_rect`).
    pub open spec fn menu_width(self, area: Rect) -> u16 {
        if longest_label(self.actions@) + 6 < area.width {
            (longest_label(self.actions@) + 6) as u16
        } else {
            area.width
        }
    }

    pub open spec fn menu_height(self, area: Rect) -> u16 {
        if self.actions@.len() + 2 < area.height {
            (self.actions@.len() + 2) as u16
        } else {
            area.height
        }
    }

    pub open spec fn rect_spec(self, area: Rect) -> Rect {
        let w = self.menu_width(area);
        let h = self.menu_height(area);
        let x = if self.x + w > area.width {
            (area.width - w) as u16
        } else {
            self.x
        };
        let y = if self.y + h > area.height {
            if self.y >= h {
                (self.y - h) as u16
            } else {
                0u16
            }
        } else {
            self.y
        };
        Rect { x, y, width: w, height: h }
    }

    /// Where the menu is drawn in a terminal area: as wide as the longest
    /// label plus 6 and as high as the number of items plus 2, each capped
    /// by the area; moved left to end at the area's right edge when it would
    /// stick out there, and moved up by its height when it would stick out
    /// at the bottom.
    pub fn calculate_rect(&self, terminal_area: Rect) -> (res: Rect)
        requires
            longest_label(self.actions@) + 6 <= u16::MAX,
            self.actions@.len() + 2 <= u16::MAX,
            self.x + self.menu_width(terminal_area) <= u16::MAX,
            self.y + self.menu_height(terminal_area) <= u16::MAX,
        ensures
            res == self.rect_spec(terminal_area),
    {
        let longest = longest_label_exec(&self.actions);
        let n = self.actions.len();
        let wanted_w: u16 = (longest + 6) as u16;
        let menu_width = if wanted_w < terminal_area.width {
            wanted_w
        } else {
            terminal_area.width
        };
        let wanted_h: u16 = (n + 2) as u16;
        let menu_height = if wanted_h < terminal_area.height {
            wanted_h
        } else {
            terminal_area.height
        };
        let mut x = self.x;
        let mut y = self.y;
        if x + menu_width > terminal_area.width {
            x = terminal_area.width - menu_width;
        }
        if y + menu_height > terminal_area.height {
            y = y.saturating_sub(menu_height);
        }
        Rect { x, y, width: menu_width, height: menu_height }
    }
}

/// The largest label length of `items` (see `longest_label`).
pub fn longest_label_exec(items: &Vec<(String, Action)>) -> (res: usize)
    ensures
        res == longest_label(items@),
{
    let mut longest: usize = 0;
    let n = items.len();
    for i in 0..n
        invariant
            n == items@.len(),
            longest == longest_label(items@.take(i as int)),
    {
        proof {
            assert(items@.take(i + 1).drop_last() =~= items@.take(i as int));
        }
        let l = items[i].0.as_str().len();
        if l > longest {
            longest = l;
        }
    }
    assert(items@.take(n as int) =~= items@);
    longest
}

proof fn lemma_longest_prefix(items: Seq<(String, Action)>, k: int)
    requires
        0 <= k <= items.len(),
    ensures
        longest_label(items.take(k)) <= longest_label(items),
    decreases items.len() - k,
{
    if k < items.len() {
        lemma_longest_prefix(items, k + 1);
        assert(items.take(k + 1).drop_last() =~= items.take(k));
    } else {
        assert(items.take(k) =~= items);
    }
}

/// A menu opened at a cell of the terminal area lies within the area: it is
/// moved left or up as far as it would stick out.
pub proof fn law_menu_within_area(menu: ContextMenuState, area: Rect)
    requires
        menu.y <= area.height,
    ensures
        menu.rect_spec(area).x + menu.rect_spec(area).width <= area.width,
        menu.rect_spec(area).y + menu.rect_spec(area).height <= area.height,
{
}

} // verus!
