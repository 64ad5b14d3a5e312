//! What the renderer asks of a terminal.

use vstd::prelude::*;

use crate::style::{Attribute, Color};

verus! {

/// One request to the output sink.
///
/// The renderer never talks to a terminal itself. It queues commands, in the
/// order in which they have to arrive, and whoever owns the terminal carries
/// them out one after the other.
#[derive(Clone, Copy, Debug, PartialEq, Eq, Structural)]
pub enum Command {
    /// Move the cursor to the given column and row; the top left cell is `(0, 0)`.
    MoveTo(u16, u16),
    /// Draw what follows with this attribute.
    SetAttribute(Attribute),
    /// Draw what follows in this foreground colour.
    SetForegroundColor(Color),
    /// Draw what follows on this background colour.
    SetBackgroundColor(Color),
    /// Write this byte at the cursor; the cursor moves one column to the right.
    Write(u8),
    /// Clear the whole screen.
    ClearAll,
    /// Hand everything queued so far to the terminal.
    Flush,
}

} // verus!
