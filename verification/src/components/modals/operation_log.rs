//! The operation log pop-up.
use crate::app::state::OperationLogState;
use vstd::prelude::*;

verus! {

/// The operation log pop-up for the log's state.
pub struct OperationLogModal<'a> {
    pub state: &'a OperationLogState,
}

impl<'a> OperationLogModal<'a> {
    /// The line highlighted, which the list keeps in view: the scroll
    /// position.
    pub fn highlighted_line(&self) -> (res: usize)
        ensures
            res == self.state.scroll,
    {
        self.state.scroll as usize
    }
}

} // verus!
