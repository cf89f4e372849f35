//! The state machine's features: each applies the actions it knows.
pub mod navigation;
pub mod filter;
pub mod ui;
pub mod vcs;
