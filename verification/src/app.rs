//! The application: actions, commands, state, key bindings and the state
//! machine that turns actions into state changes and commands.

pub mod action;
pub mod command;
pub mod command_palette;
pub mod features;
pub mod input;
pub mod keymap;
pub mod keys;
pub mod laws;
pub mod documented_laws;
pub mod persistence;
pub mod recovery;
pub mod reducer;
pub mod state;
pub mod ui;
