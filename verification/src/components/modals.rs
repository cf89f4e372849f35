//! Pop-up windows: where they are placed on the screen and which are shown.
pub mod command_palette;
pub mod help;
pub mod helpers;
pub mod manager;
pub mod operation_log;
pub mod theme_selection;
