//! The editing core of a text input and the drawing core of a canvas widget.
//!
//! [`text_input`] holds a text buffer, the cursor that points into it and the
//! editor that applies one edit to both. Every offset counts characters.
//!
//! [`canvas`] holds a widget that draws what a program of the user tells it
//! to, and that keeps the geometry it drew until it is told that the drawing
//! is stale. Positions and sizes are whole units.
//!
//! Every function is verified against its contract. The contracts speak of
//! texts as sequences of characters, of cursors as their [`text_input::State`]
//! and of a canvas as its [`canvas::Surface`], and the lemmas next to the
//! functions state what several calls have to do with each other.
pub mod canvas;
pub mod event;
pub mod keyboard;
pub mod layout;
pub mod mouse;
pub mod shell;
pub mod text_input;
pub mod touch;
pub mod units;
pub mod window;
