//! A text buffer, its cursor, and the edits that keep the two consistent.
pub mod cursor;
pub mod editor;
pub mod value;

pub use cursor::{Cursor, State};
pub use editor::Editor;
pub use value::Value;
