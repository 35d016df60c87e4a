//! Core of a small modal text editor: a line buffer, a cursor with a
//! blinking visual state, two interaction modes (Normal and Insert), a
//! keystroke dispatcher, colon-command parsing, and a renderer that
//! projects the state onto a character grid as plain draw operations.
//!
//! Everything here is pure with respect to the outside world: keystrokes,
//! wall-clock time and file contents come in as plain values, and draw
//! operations and file contents go out as plain values.

pub mod mode;
pub mod key;
pub mod cursor;
pub mod buffer;
pub mod status_column;
pub mod model;
pub mod text;
pub mod editor;
pub mod command;
pub mod laws;
pub mod render;
