use crate::theme::PaletteType;
use vstd::prelude::*;

verus! {

/// The theme picker: the palettes offered and the highlighted one.
#[derive(Debug)]
pub struct ThemeSelectionState {
    pub selected_index: usize,
    pub themes: Vec<PaletteType>,
}

impl Default for ThemeSelectionState {
    /// The picker with every palette, the first highlighted.
    fn default() -> (res: Self)
        ensures
            res.selected_index == 0,
            res.themes@ == seq![PaletteType::CatppuccinMocha],
    {
        ThemeSelectionState { selected_index: 0, themes: PaletteType::all() }
    }
}

} // verus!
