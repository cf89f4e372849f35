use vstd::prelude::*;

verus! {

/// The evolution log of a revision, one entry per line, and how far it is scrolled.
#[derive(Debug)]
pub struct EvologState {
    pub content: Vec<String>,
    pub scroll: u16,
}

/// The operation log, one entry per line, and how far it is scrolled.
#[derive(Debug)]
pub struct OperationLogState {
    pub content: Vec<String>,
    pub scroll: u16,
}

} // verus!
