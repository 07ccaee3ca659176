//! Navigation core of an interactive browser for a hierarchical document
//! store: top-level containers hold collections, collections hold records.
//!
//! The library decides; the caller performs. A [`Navigator`] takes key events
//! and answers with an [`Action`]. When that action is [`Action::Fetch`], the
//! caller runs the listing named by [`Navigator::pending`] against the store
//! and hands the outcome back through [`Navigator::on_fetched`]. What to draw
//! is read back from the navigator afterwards.

pub mod labels;
pub mod laws;
pub mod navigator;
pub mod render;

pub use labels::copy_labels;
pub use navigator::{Action, Key, Level, Navigator, QueryError, Request};
pub use render::{cursor_row, header_text, is_marked};
