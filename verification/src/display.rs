//! The display itself: two frame buffers and the operations on them.

use vstd::prelude::*;

use crate::cell::Cell;
use crate::command::Command;
use crate::frame::{
    delta_cells, delta_rows, filled, full_cells, full_rows, lemma_delta_cells_step,
    lemma_delta_rows_step, lemma_full_cells_step, lemma_full_rows_step, DisplayState, Frame,
};
use crate::style::Color;

verus! {

/// The frame that a vector of rows holds.
spec fn frame_of(chars: Vec<Vec<Cell>>) -> Frame {
    Seq::new(chars.len() as nat, |y: int| chars[y]@)
}

/// A position that lies outside the grid.
#[derive(Clone, Copy, Debug, PartialEq, Eq, Structural)]
pub struct BoundsError {
    /// The column that was asked for.
    pub x: usize,
    /// The row that was asked for.
    pub y: usize,
    /// The number of columns of the display.
    pub w: u16,
    /// The number of rows of the display.
    pub h: u16,
}

/// A double-buffered display of `w` columns and `h` rows.
pub struct TerminalDisplay {
    prev_chars: Option<Vec<Vec<Cell>>>,
    chars: Vec<Vec<Cell>>,
    w: u16,
    h: u16,
}

impl View for TerminalDisplay {
    type V = DisplayState;

    closed spec fn view(&self) -> DisplayState {
        DisplayState {
            w: self.w,
            h: self.h,
            current: frame_of(self.chars),
            previous: match self.prev_chars {
                Some(prev_chars) => Some(frame_of(prev_chars)),
                None => None,
            },
        }
    }
}

impl TerminalDisplay {
    #[verifier::type_invariant]
    spec fn inv(&self) -> bool {
        self@.wf()
    }

    /// Creates a display of `w` columns and `h` rows, filled with empty cells.
    /// Nothing is known yet of what the terminal shows, so the first render
    /// repaints everything.
    pub fn new(w: u16, h: u16) -> (display: TerminalDisplay)
        ensures
            display@ == DisplayState::blank(w, h),
    {
        TerminalDisplay { prev_chars: None, chars: Self::init_chars(w, h), w, h }
    }

    fn init_chars(w: u16, h: u16) -> (chars: Vec<Vec<Cell>>)
        ensures
            frame_of(chars) == filled(w as nat, h as nat, Cell::empty()),
    {
        let mut chars: Vec<Vec<Cell>> = Vec::with_capacity(h as usize);
        let mut y: u16 = 0;
        while y < h
            invariant
                y <= h,
                chars.len() == y,
                frame_of(chars) == filled(w as nat, y as nat, Cell::empty()),
            decreases h - y,
        {
            let mut row: Vec<Cell> = Vec::with_capacity(w as usize);
            let mut x: u16 = 0;
            while x < w
                invariant
                    x <= w,
                    row.len() == x,
                    row@ == Seq::new(x as nat, |i: int| Cell::empty()),
                decreases w - x,
            {
                row.push(Cell::empty());
                x += 1;
            }
            let ghost above = frame_of(chars);
            chars.push(row);
            y += 1;
            assert(frame_of(chars) =~~= filled(w as nat, y as nat, Cell::empty())) by {
                assert forall|i: int| 0 <= i < y implies #[trigger] frame_of(chars)[i]
                    =~= Seq::new(w as nat, |x: int| Cell::empty()) by {
                    if i < y - 1 {
                        assert(frame_of(chars)[i] == above[i]);
                    }
                }
            }
        }
        chars
    }

    /// Moves the display out of `self`, which is left with no rows and no
    /// columns until it is assigned again.
    fn take(&mut self) -> (taken: TerminalDisplay)
        ensures
            taken == *old(self),
    {
        let mut taken = TerminalDisplay { prev_chars: None, chars: Vec::new(), w: 0, h: 0 };
        core::mem::swap(self, &mut taken);
        taken
    }

    /// Gives the display a new size. The current frame is empty afterwards,
    /// and the frame that the terminal shows is forgotten, whatever the new
    /// size is: the next render repaints everything.
    pub fn resize(&mut self, w: u16, h: u16)
        ensures
            final(self)@ == DisplayState::blank(w, h),
    {
        *self = TerminalDisplay { prev_chars: None, chars: Self::init_chars(w, h), w, h };
    }

    /// Replaces the cell in column `x`, row `y` of the current frame.
    ///
    /// A position outside the grid is refused, and the display is left as it
    /// was.
    pub fn write(&mut self, x: usize, y: usize, ch: Cell) -> (result: Result<(), BoundsError>)
        ensures
            final(self)@.wf(),
            old(self)@.contains(x as int, y as int) ==> result is Ok && final(self)@ == old(
                self,
            )@.write(x as int, y as int, ch),
            !old(self)@.contains(x as int, y as int) ==> final(self)@ == old(self)@ && result
                == Err::<(), BoundsError>(
                BoundsError { x, y, w: old(self)@.w, h: old(self)@.h },
            ),
    {
        proof {
            use_type_invariant(&*self);
        }
        if x < self.w as usize && y < self.h as usize {
            let TerminalDisplay { prev_chars, mut chars, w, h } = self.take();
            let ghost before = frame_of(chars);
            chars[y][x] = ch;
            assert(frame_of(chars) =~~= before.update(y as int, before[y as int].update(x as int, ch)));
            *self = TerminalDisplay { prev_chars, chars, w, h };
            Ok(())
        } else {
            Err(BoundsError { x, y, w: self.w, h: self.h })
        }
    }

    /// Works out what has to be sent to the terminal so that it shows the
    /// current frame, and returns it with a final flush.
    ///
    /// Where no earlier frame is known, that is a full repaint: for each row
    /// one move to its start, then all its cells. Where one is known, it is a
    /// delta repaint: for each cell that differs from the earlier frame a move
    /// to it, then the cell; nothing for the others.
    ///
    /// The display itself is left as it is. Once the commands have been
    /// carried out, or have failed, `finish` takes the outcome.
    pub fn render(&self) -> (q: Vec<Command>)
        ensures
            self@.wf(),
            q@ == self@.commands(),
    {
        proof {
            use_type_invariant(self);
            lemma_full_rows_step(frame_of(self.chars), 0);
            if let Some(prev_chars) = &self.prev_chars {
                lemma_delta_rows_step(frame_of(*prev_chars), frame_of(self.chars), 0);
            }
        }
        let mut q: Vec<Command> = Vec::new();
        let mut y: usize = 0;
        while y < self.chars.len()
            invariant
                self@.wf(),
                y <= self.chars.len(),
                q@ == match self.prev_chars {
                    None => full_rows(frame_of(self.chars), y as nat),
                    Some(prev_chars) => delta_rows(
                        frame_of(prev_chars),
                        frame_of(self.chars),
                        y as nat,
                    ),
                },
            decreases self.chars.len() - y,
        {
            let row = &self.chars[y];
            let ghost above = q@;
            assert(row@ == frame_of(self.chars)[y as int]);
            match &self.prev_chars {
                Some(prev_chars) => {
                    let prev_row = &prev_chars[y];
                    assert(prev_row@ == frame_of(*prev_chars)[y as int]);
                    proof {
                        lemma_delta_cells_step(prev_row@, row@, y as int, 0);
                    }
                    let mut x: usize = 0;
                    while x < row.len()
                        invariant
                            x <= row.len(),
                            row.len() == prev_row.len(),
                            row.len() <= u16::MAX,
                            y < u16::MAX,
                            q@ == above + delta_cells(prev_row@, row@, y as int, x as nat),
                        decreases row.len() - x,
                    {
                        proof {
                            lemma_delta_cells_step(prev_row@, row@, y as int, x as nat);
                        }
                        if prev_row[x] != row[x] {
                            q.push(Command::MoveTo(x as u16, y as u16));
                            row[x].render(&mut q);
                        }
                        x += 1;
                    }
                    proof {
                        lemma_delta_rows_step(
                            frame_of(*prev_chars),
                            frame_of(self.chars),
                            y as nat,
                        );
                    }
                },
                None => {
                    q.push(Command::MoveTo(0, y as u16));
                    proof {
                        lemma_full_cells_step(row@, 0);
                    }
                    let mut x: usize = 0;
                    while x < row.len()
                        invariant
                            x <= row.len(),
                            q@ == above.push(Command::MoveTo(0, y as u16)) + full_cells(
                                row@,
                                x as nat,
                            ),
                        decreases row.len() - x,
                    {
                        proof {
                            lemma_full_cells_step(row@, x as nat);
                        }
                        row[x].render(&mut q);
                        x += 1;
                    }
                    proof {
                        lemma_full_rows_step(frame_of(self.chars), y as nat);
                    }
                },
            }
            y += 1;
        }
        q.push(Command::Flush);
        q
    }

    /// Takes the outcome of carrying out the commands of the last `render`,
    /// and hands it on unchanged.
    ///
    /// After a success the frame that was sent becomes the frame that the
    /// terminal shows, and the current frame is empty again, so each frame has
    /// to be drawn in full. After a failure the display is left exactly as it
    /// was: the next render compares with the last frame that did arrive, or
    /// repaints everything if none ever did.
    pub fn finish<E>(&mut self, outcome: Result<(), E>) -> (result: Result<(), E>)
        ensures
            final(self)@.wf(),
            result == outcome,
            outcome is Ok ==> final(self)@ == old(self)@.rotate(),
            outcome is Err ==> final(self)@ == old(self)@,
    {
        proof {
            use_type_invariant(&*self);
        }
        if outcome.is_ok() {
            let TerminalDisplay { prev_chars: _, chars, w, h } = self.take();
            *self = TerminalDisplay { prev_chars: Some(chars), chars: Self::init_chars(w, h), w, h };
        }
        outcome
    }

    /// Overwrites every cell of the current frame with the empty cell. The
    /// frame that the terminal shows is not touched.
    pub fn clear(&mut self)
        ensures
            final(self)@.wf(),
            final(self)@ == old(self)@.clear(),
    {
        self.clear_colored(Color::Black);
    }

    /// Overwrites every cell of the current frame with the empty cell on a
    /// background of the given colour. The frame that the terminal shows is not
    /// touched.
    pub fn clear_colored(&mut self, color: Color)
        ensures
            final(self)@.wf(),
            final(self)@ == old(self)@.clear_colored(color),
    {
        proof {
            use_type_invariant(&*self);
        }
        let TerminalDisplay { prev_chars, mut chars, w, h } = self.take();
        let cell = Cell::empty_colored(color);
        assert forall|i: int| 0 <= i < chars.len() implies (#[trigger] chars[i]).len() == w by {
            assert(frame_of(chars)[i].len() == w);
        }
        let mut y: usize = 0;
        while y < chars.len()
            invariant
                y <= chars.len() == h,
                forall|i: int| 0 <= i < chars.len() ==> (#[trigger] chars[i]).len() == w,
                forall|i: int|
                    0 <= i < y ==> (#[trigger] chars[i])@ =~= Seq::new(w as nat, |j: int| cell),
            decreases chars.len() - y,
        {
            let mut x: usize = 0;
            while x < chars[y].len()
                invariant
                    y < chars.len() == h,
                    x <= w,
                    forall|i: int| 0 <= i < chars.len() ==> (#[trigger] chars[i]).len() == w,
                    forall|i: int|
                        0 <= i < y ==> (#[trigger] chars[i])@ =~= Seq::new(
                            w as nat,
                            |j: int| cell,
                        ),
                    forall|j: int| 0 <= j < x ==> chars[y as int][j] == cell,
                decreases w - x,
            {
                chars[y][x] = cell;
                x += 1;
            }
            y += 1;
        }
        assert(frame_of(chars) =~~= filled(w as nat, h as nat, cell));
        *self = TerminalDisplay { prev_chars, chars, w, h };
    }

    /// Queues what clears the whole screen and puts the cursor in its top left
    /// corner, after whatever `q` holds already.
    pub fn queue_clear(q: &mut Vec<Command>)
        ensures
            final(q)@ == old(q)@ + seq![Command::ClearAll, Command::MoveTo(0, 0)],
    {
        q.push(Command::ClearAll);
        q.push(Command::MoveTo(0, 0));
    }

    /// The number of columns.
    pub fn w(&self) -> (w: u16)
        ensures
            w == self@.w,
    {
        self.w
    }

    /// The number of rows.
    pub fn h(&self) -> (h: u16)
        ensures
            h == self@.h,
    {
        self.h
    }
}

} // verus!
