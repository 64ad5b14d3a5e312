//! A double-buffered, diff-based renderer for character-grid displays.
//!
//! A caller describes each frame in full, cell by cell, and the display works
//! out which cells differ from the frame that the terminal shows already. Only
//! those are sent again.
//!
//! The display never touches a terminal. A render is three steps:
//! `TerminalDisplay::render` returns the commands of the frame, the owner of
//! the terminal carries them out, and `TerminalDisplay::finish` takes the
//! outcome: the frame becomes the new baseline if it arrived, and nothing
//! changes if it did not.

pub mod cell;
pub mod command;
pub mod display;
pub mod frame;
pub mod laws;
pub mod style;

pub use cell::Cell;
pub use command::Command;
pub use display::{BoundsError, TerminalDisplay};
pub use style::{Attribute, Color};
