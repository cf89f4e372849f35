//! Verified core of a terminal interface for the Jujutsu version control
//! system: the revision-graph layout, the application state machine
//! (actions in, state changes and commands out), key bindings, input
//! mapping and the pure decisions behind the views.

pub mod app;
pub mod clock;
pub mod components;
pub mod domain;
pub mod text;
pub mod theme;
