//! The command palette pop-up: the commands that match the query.
use crate::app::command_palette::{command_table, describes, get_commands};
use crate::app::state::CommandPaletteState;
use vstd::prelude::*;

verus! {

/// The command palette pop-up for the palette's state.
pub struct CommandPaletteModal<'a> {
    pub state: &'a CommandPaletteState,
}

impl<'a> CommandPaletteModal<'a> {
    /// Every match names a command of the table.
    pub open spec fn matches_valid(self) -> bool {
        forall|i: int|
            0 <= i < self.state.matches@.len() ==> (#[trigger] self.state.matches@[i]) < command_table().len()
    }

    /// The listed commands: for each match in order, the command's name and
    /// description and whether it is the highlighted one.
    pub fn rows(&self) -> (res: Vec<(&'static str, &'static str, bool)>)
        requires
            self.matches_valid(),
        ensures
            res@.len() == self.state.matches@.len(),
            forall|i: int|
                0 <= i < res@.len() ==> (#[trigger] res@[i]).0@ == command_table()[self.state.matches@[i] as int].0
                    && res@[i].1@ == command_table()[self.state.matches@[i] as int].1 && res@[i].2 == (i
                    == self.state.selected_index),
    {
        let commands = get_commands();
        let n = self.state.matches.len();
        let mut res: Vec<(&'static str, &'static str, bool)> = Vec::new();
        for i in 0..n
            invariant
                n == self.state.matches@.len(),
                self.matches_valid(),
                commands@.len() == command_table().len(),
                forall|j: int| 0 <= j < commands@.len() ==> describes(#[trigger] commands@[j], j),
                res@.len() == i,
                forall|j: int|
                    0 <= j < i ==> (#[trigger] res@[j]).0@ == command_table()[self.state.matches@[j] as int].0
                        && res@[j].1@ == command_table()[self.state.matches@[j] as int].1 && res@[j].2
                        == (j == self.state.selected_index),
        {
            let k = self.state.matches[i];
            assert(describes(commands@[k as int], k as int));
            res.push((commands[k].name, commands[k].description, i == self.state.selected_index));
        }
        res
    }
}

} // verus!
