//! One position of the character grid.

use vstd::prelude::*;

use crate::command::Command;
use crate::style::{Attribute, Color};

verus! {

/// The character of an empty cell: an ASCII space.
pub const SPACE: u8 = 0x20;

/// A single character on the screen, with the style it is drawn in.
///
/// Two cells are equal exactly when all four fields are equal; the renderer
/// decides by that equality whether a position has to be sent again.
#[derive(Clone, Copy, Debug, PartialEq, Eq, Structural)]
pub struct Cell {
    /// The character itself, as the byte that is sent to the terminal.
    pub ch: u8,
    /// The foreground colour.
    pub fg: Color,
    /// The background colour.
    pub bg: Color,
    /// The attribute (bold, italics, and so on).
    pub attr: Attribute,
}

impl Cell {
    /// The empty cell on a black background.
    pub open spec fn spec_empty() -> Cell {
        Cell::spec_empty_colored(Color::Black)
    }

    /// The empty cell on a background of the given colour: a space, drawn in
    /// white, with no attribute set.
    pub open spec fn spec_empty_colored(color: Color) -> Cell {
        Cell { ch: SPACE, fg: Color::White, bg: color, attr: Attribute::Reset }
    }

    /// What a terminal has to be sent to show this cell at the cursor: the
    /// attribute, the foreground colour, the background colour, and then the
    /// character.
    pub open spec fn commands(self) -> Seq<Command> {
        seq![
            Command::SetAttribute(self.attr),
            Command::SetForegroundColor(self.fg),
            Command::SetBackgroundColor(self.bg),
            Command::Write(self.ch),
        ]
    }

    /// Creates an empty cell with a black background.
    #[verifier::when_used_as_spec(spec_empty)]
    pub fn empty() -> (cell: Cell)
        ensures
            cell == Cell::spec_empty(),
    {
        Cell::empty_colored(Color::Black)
    }

    /// Creates an empty cell with a background of the given colour.
    #[verifier::when_used_as_spec(spec_empty_colored)]
    pub fn empty_colored(color: Color) -> (cell: Cell)
        ensures
            cell == Cell::spec_empty_colored(color),
    {
        Cell { ch: SPACE, fg: Color::White, bg: color, attr: Attribute::Reset }
    }

    /// Queues the commands that draw this cell at the cursor, after whatever
    /// `q` holds already.
    pub fn render(&self, q: &mut Vec<Command>)
        ensures
            final(q)@ == old(q)@ + self.commands(),
    {
        q.push(Command::SetAttribute(self.attr));
        q.push(Command::SetForegroundColor(self.fg));
        q.push(Command::SetBackgroundColor(self.bg));
        q.push(Command::Write(self.ch));
    }
}

impl Default for Cell {
    /// The default cell is the empty cell on a black background.
    fn default() -> (cell: Cell)
        ensures
            cell == Cell::spec_empty(),
    {
        Cell::empty()
    }
}

} // verus!
