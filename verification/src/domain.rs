//! Domain data: commits, files, graph rows and the graph layout.

pub mod graph_layout;
pub mod log_format;
pub mod models;
