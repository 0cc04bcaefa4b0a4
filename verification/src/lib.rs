//! A minimal screen-oriented text editor core: a line buffer, a cursor and
//! scroll-offset state machine, and a renderer that turns the visible window
//! of the buffer into the text sent to a character-cell terminal.

pub mod row;
pub mod document;
pub mod terminal;
pub mod editor;

pub use crate::document::Document;
pub use crate::editor::Editor;
pub use crate::editor::Key;
pub use crate::editor::Position;
pub use crate::row::Row;
pub use crate::terminal::Size;
