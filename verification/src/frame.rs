//! The mathematical model of the display: frames, the state of the two
//! buffers, and the commands that a render sends.

use vstd::prelude::*;

use crate::cell::Cell;
use crate::command::Command;
use crate::style::Color;

verus! {

/// A frame is a grid of cells in row-major order: `frame[y][x]` is the cell in
/// row `y`, column `x`.
pub type Frame = Seq<Seq<Cell>>;

/// `frame` has exactly `h` rows of exactly `w` cells each.
pub open spec fn is_frame(frame: Frame, w: nat, h: nat) -> bool {
    &&& frame.len() == h
    &&& forall|y: int| 0 <= y < h ==> (#[trigger] frame[y]).len() == w
}

/// The frame of `h` rows and `w` columns in which every cell is `cell`.
pub open spec fn filled(w: nat, h: nat, cell: Cell) -> Frame {
    Seq::new(h, |y: int| Seq::new(w, |x: int| cell))
}

/// What a full repaint sends for the first `n` cells of `row`: each cell in
/// turn, with no cursor move in between, since the terminal advances the
/// cursor by itself.
pub open spec fn full_cells(row: Seq<Cell>, n: nat) -> Seq<Command> {
    Seq::new(n, |x: int| row[x].commands()).flatten()
}

/// What a full repaint sends for row `y`: one move to the start of the row,
/// then every cell of it in column order.
pub open spec fn full_row(row: Seq<Cell>, y: int) -> Seq<Command> {
    seq![Command::MoveTo(0, y as u16)] + full_cells(row, row.len())
}

/// What a full repaint sends for the first `n` rows of `frame`.
pub open spec fn full_rows(frame: Frame, n: nat) -> Seq<Command> {
    Seq::new(n, |y: int| full_row(frame[y], y)).flatten()
}

/// What a delta repaint sends for the cell in column `x` of row `y`: nothing
/// where the cell is what the terminal shows already, and otherwise a move to
/// the cell followed by the cell itself.
pub open spec fn delta_cell(before: Cell, after: Cell, x: int, y: int) -> Seq<Command> {
    if before == after {
        Seq::empty()
    } else {
        seq![Command::MoveTo(x as u16, y as u16)] + after.commands()
    }
}

/// What a delta repaint sends for the first `n` cells of row `y`.
pub open spec fn delta_cells(before: Seq<Cell>, after: Seq<Cell>, y: int, n: nat) -> Seq<Command> {
    Seq::new(n, |x: int| delta_cell(before[x], after[x], x, y)).flatten()
}

/// What a delta repaint sends for the first `n` rows.
pub open spec fn delta_rows(before: Frame, after: Frame, n: nat) -> Seq<Command> {
    Seq::new(n, |y: int| delta_cells(before[y], after[y], y, after[y].len())).flatten()
}

/// How many cells `commands` draw: each cell that is drawn ends with the one
/// command that writes its character.
pub open spec fn cells_drawn(commands: Seq<Command>) -> nat {
    commands.filter(|command: Command| command is Write).len()
}

/// How many times `commands` move the cursor.
pub open spec fn cursor_moves(commands: Seq<Command>) -> nat {
    commands.filter(|command: Command| command is MoveTo).len()
}

/// Whatever `commands` draw looks like `cell`: every attribute, colour and
/// character among them is that of `cell`.
pub open spec fn draws_only(commands: Seq<Command>, cell: Cell) -> bool {
    forall|i: int|
        0 <= i < commands.len() ==> match #[trigger] commands[i] {
            Command::SetAttribute(attr) => attr == cell.attr,
            Command::SetForegroundColor(fg) => fg == cell.fg,
            Command::SetBackgroundColor(bg) => bg == cell.bg,
            Command::Write(ch) => ch == cell.ch,
            _ => true,
        }
}

/// `commands` do nothing but draw cells on a grid of `w` columns and `h` rows:
/// they neither flush nor clear the screen, and every cursor move goes to a row
/// of the grid, and there to one of its columns or, where a row is painted in
/// full, to its start.
pub open spec fn draws_on_grid(commands: Seq<Command>, w: nat, h: nat) -> bool {
    forall|i: int|
        0 <= i < commands.len() ==> match #[trigger] commands[i] {
            Command::MoveTo(x, y) => y < h && (x < w || x == 0),
            Command::ClearAll => false,
            Command::Flush => false,
            _ => true,
        }
}

/// The full repaint of no cells at all sends nothing, and each further cell adds
/// its own commands at the end.
pub proof fn lemma_full_cells_step(row: Seq<Cell>, n: nat)
    ensures
        full_cells(row, 0) == Seq::<Command>::empty(),
        full_cells(row, n + 1) == full_cells(row, n) + row[n as int].commands(),
{
    let chunk = |x: int| row[x].commands();
    assert(Seq::new(0, chunk) =~= Seq::empty());
    assert(Seq::new(n + 1, chunk) =~= Seq::new(n, chunk).push(chunk(n as int)));
    Seq::new(n, chunk).lemma_flatten_push(chunk(n as int));
}

/// The full repaint of no rows at all sends nothing, and each further row adds
/// its own commands at the end.
pub proof fn lemma_full_rows_step(frame: Frame, n: nat)
    ensures
        full_rows(frame, 0) == Seq::<Command>::empty(),
        full_rows(frame, n + 1) == full_rows(frame, n) + full_row(frame[n as int], n as int),
{
    let chunk = |y: int| full_row(frame[y], y);
    assert(Seq::new(0, chunk) =~= Seq::empty());
    assert(Seq::new(n + 1, chunk) =~= Seq::new(n, chunk).push(chunk(n as int)));
    Seq::new(n, chunk).lemma_flatten_push(chunk(n as int));
}

/// The delta repaint of no cells at all sends nothing, and each further cell
/// adds its own commands, if it has any, at the end.
pub proof fn lemma_delta_cells_step(before: Seq<Cell>, after: Seq<Cell>, y: int, n: nat)
    ensures
        delta_cells(before, after, y, 0) == Seq::<Command>::empty(),
        delta_cells(before, after, y, n + 1) == delta_cells(before, after, y, n) + delta_cell(
            before[n as int],
            after[n as int],
            n as int,
            y,
        ),
{
    let chunk = |x: int| delta_cell(before[x], after[x], x, y);
    assert(Seq::new(0, chunk) =~= Seq::empty());
    assert(Seq::new(n + 1, chunk) =~= Seq::new(n, chunk).push(chunk(n as int)));
    Seq::new(n, chunk).lemma_flatten_push(chunk(n as int));
}

/// The delta repaint of no rows at all sends nothing, and each further row
/// adds its own commands, if it has any, at the end.
pub proof fn lemma_delta_rows_step(before: Frame, after: Frame, n: nat)
    ensures
        delta_rows(before, after, 0) == Seq::<Command>::empty(),
        delta_rows(before, after, n + 1) == delta_rows(before, after, n) + delta_cells(
            before[n as int],
            after[n as int],
            n as int,
            after[n as int].len(),
        ),
{
    let chunk = |y: int| delta_cells(before[y], after[y], y, after[y].len());
    assert(Seq::new(0, chunk) =~= Seq::empty());
    assert(Seq::new(n + 1, chunk) =~= Seq::new(n, chunk).push(chunk(n as int)));
    Seq::new(n, chunk).lemma_flatten_push(chunk(n as int));
}

/// The state of a display: its dimensions, the frame that is being put
/// together, and the frame that the terminal shows, if that is known.
#[verifier::ext_equal]
pub struct DisplayState {
    /// The number of columns.
    pub w: u16,
    /// The number of rows.
    pub h: u16,
    /// The frame that the next render will send.
    pub current: Frame,
    /// The frame that the last successful render sent. `None` before the first
    /// render and after a resize: nothing is known then of what the terminal
    /// shows.
    pub previous: Option<Frame>,
}

impl DisplayState {
    /// Both frames have the dimensions of the display.
    pub open spec fn wf(self) -> bool {
        &&& is_frame(self.current, self.w as nat, self.h as nat)
        &&& self.previous matches Some(previous) ==> is_frame(previous, self.w as nat, self.h as nat)
    }

    /// A display of the given size on which nothing was drawn or rendered yet.
    pub open spec fn blank(w: u16, h: u16) -> DisplayState {
        DisplayState { w, h, current: filled(w as nat, h as nat, Cell::empty()), previous: None }
    }

    /// `other` is what `self` can become by drawing alone, that is by writes
    /// and clears in any number and order: it has the size of `self`, and what
    /// the terminal shows is the same for both.
    pub open spec fn redrawn_as(self, other: DisplayState) -> bool {
        &&& other.w == self.w
        &&& other.h == self.h
        &&& other.previous == self.previous
    }

    /// `(x, y)` is a position of the grid.
    pub open spec fn contains(self, x: int, y: int) -> bool {
        0 <= x < self.w && 0 <= y < self.h
    }

    /// The state after the cell at column `x`, row `y` of the current frame was
    /// replaced by `cell`.
    pub open spec fn write(self, x: int, y: int, cell: Cell) -> DisplayState {
        DisplayState { current: self.current.update(y, self.current[y].update(x, cell)), ..self }
    }

    /// The state after every cell of the current frame was replaced by the
    /// empty cell on the given background.
    pub open spec fn clear_colored(self, color: Color) -> DisplayState {
        DisplayState {
            current: filled(self.w as nat, self.h as nat, Cell::empty_colored(color)),
            ..self
        }
    }

    /// The state after every cell of the current frame was replaced by the
    /// empty cell.
    pub open spec fn clear(self) -> DisplayState {
        self.clear_colored(Color::Black)
    }

    /// What a render sends, flush included: a full repaint where no earlier
    /// frame is known, and a delta repaint against that frame where one is.
    pub open spec fn commands(self) -> Seq<Command> {
        match self.previous {
            None => full_rows(self.current, self.current.len()),
            Some(previous) => delta_rows(previous, self.current, self.current.len()),
        }.push(Command::Flush)
    }

    /// The state after a successful render: what was sent is now the frame
    /// that the terminal shows, and the current frame is empty again.
    pub open spec fn rotate(self) -> DisplayState {
        DisplayState {
            current: filled(self.w as nat, self.h as nat, Cell::empty()),
            previous: Some(self.current),
            ..self
        }
    }
}

} // verus!
