use vstd::prelude::*;

verus! {

/// The command palette: what was typed, the matching commands, the highlighted one.
#[derive(Debug)]
pub struct CommandPaletteState {
    pub query: String,
    /// Indices into the command list.
    pub matches: Vec<usize>,
    pub selected_index: usize,
}

} // verus!
