//! The theme picker pop-up.
use crate::app::state::ThemeSelectionState;
use crate::theme::palette_name;
use vstd::prelude::*;

verus! {

/// The theme picker pop-up for the picker's state.
pub struct ThemeSelectionModal<'a> {
    pub state: &'a ThemeSelectionState,
}

impl<'a> ThemeSelectionModal<'a> {
    /// The listed palettes: each one's name and whether it is highlighted.
    pub fn rows(&self) -> (res: Vec<(&'static str, bool)>)
        ensures
            res@.len() == self.state.themes@.len(),
            forall|i: int|
                0 <= i < res@.len() ==> (#[trigger] res@[i]).0@ == palette_name(self.state.themes@[i])
                    && res@[i].1 == (i == self.state.selected_index),
    {
        let n = self.state.themes.len();
        let mut res: Vec<(&'static str, bool)> = Vec::new();
        for i in 0..n
            invariant
                n == self.state.themes@.len(),
                res@.len() == i,
                forall|j: int|
                    0 <= j < i ==> (#[trigger] res@[j]).0@ == palette_name(self.state.themes@[j])
                        && res@[j].1 == (j == self.state.selected_index),
        {
            res.push((self.state.themes[i].label(), i == self.state.selected_index));
        }
        res
    }
}

} // verus!
