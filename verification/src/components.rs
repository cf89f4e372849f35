//! The decisions behind the views: sizes, glyphs and texts that the
//! renderers draw.
pub mod revision_graph;
pub mod footer;
pub mod modals;
pub mod diff_view;
