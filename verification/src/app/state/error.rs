use vstd::prelude::*;

verus! {

/// How serious an error is.
#[derive(PartialEq, Eq, Structural, Clone, Copy, Debug, PartialOrd, Ord)]
pub enum ErrorSeverity {
    Info,
    Warning,
    Error,
    Critical,
}

/// An error shown to the user, with hints.
#[derive(Debug)]
pub struct ErrorState {
    pub message: String,
    /// When it happened, in milliseconds since the Unix epoch.
    pub timestamp_ms: i64,
    pub severity: ErrorSeverity,
    pub suggestions: Vec<String>,
}

} // verus!
