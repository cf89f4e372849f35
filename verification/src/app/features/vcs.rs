//! Version control: intents and the running of commands.
pub mod actions;
pub mod handler;
