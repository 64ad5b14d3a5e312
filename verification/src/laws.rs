//! What holds of every display, proved from the model alone.

use vstd::prelude::*;

use crate::cell::Cell;
use crate::command::Command;
use crate::frame::{
    cells_drawn, cursor_moves, delta_cells, delta_rows, draws_on_grid, draws_only, filled,
    full_cells, full_row, full_rows, is_frame, lemma_delta_cells_step, lemma_delta_rows_step,
    lemma_full_cells_step, lemma_full_rows_step, DisplayState, Frame,
};
use crate::style::Color;

verus! {

/// Every operation leaves both frames with the dimensions of the display.
pub proof fn lemma_operations_keep_the_frames_in_shape(
    s: DisplayState,
    w: u16,
    h: u16,
    x: int,
    y: int,
    cell: Cell,
    color: Color,
)
    requires
        s.wf(),
    ensures
        DisplayState::blank(w, h).wf(),
        s.contains(x, y) ==> s.write(x, y, cell).wf(),
        s.clear().wf(),
        s.clear_colored(color).wf(),
        s.rotate().wf(),
{
}

/// Drawing changes the current frame and nothing else: neither the size of
/// the display nor what the terminal shows. Only a successful render and a
/// resize change those.
pub proof fn lemma_drawing_keeps_what_is_shown(
    s: DisplayState,
    x: int,
    y: int,
    cell: Cell,
    color: Color,
)
    ensures
        s.redrawn_as(s),
        s.redrawn_as(s.write(x, y, cell)),
        s.redrawn_as(s.clear()),
        s.redrawn_as(s.clear_colored(color)),
        forall|t: DisplayState, u: DisplayState|
            s.redrawn_as(t) && t.redrawn_as(u) ==> s.redrawn_as(u),
{
}

/// Counting the cells that are drawn, or the cursor moves, goes piece by piece.
proof fn lemma_counts_add(a: Seq<Command>, b: Seq<Command>)
    ensures
        cells_drawn(a + b) == cells_drawn(a) + cells_drawn(b),
        cursor_moves(a + b) == cursor_moves(a) + cursor_moves(b),
{
    Seq::filter_distributes_over_add(a, b, |command: Command| command is Write);
    Seq::filter_distributes_over_add(a, b, |command: Command| command is MoveTo);
}

/// Nothing is drawn by no commands, and one command draws a cell exactly when
/// it writes a character.
proof fn lemma_counts_small(command: Command)
    ensures
        cells_drawn(Seq::empty()) == 0,
        cursor_moves(Seq::empty()) == 0,
        cells_drawn(seq![command]) == if command is Write { 1nat } else { 0nat },
        cursor_moves(seq![command]) == if command is MoveTo { 1nat } else { 0nat },
{
    reveal_with_fuel(Seq::filter, 2);
    let none = Seq::<Command>::empty();
    assert(seq![command].drop_last() =~= none);
}

/// The commands of one cell draw one cell and never move the cursor.
proof fn lemma_counts_cell(cell: Cell)
    ensures
        cells_drawn(cell.commands()) == 1,
        cursor_moves(cell.commands()) == 0,
{
    let a = seq![Command::SetAttribute(cell.attr)];
    let b = seq![Command::SetForegroundColor(cell.fg)];
    let c = seq![Command::SetBackgroundColor(cell.bg)];
    let d = seq![Command::Write(cell.ch)];
    assert(cell.commands() =~= a + b + c + d);
    lemma_counts_small(Command::SetAttribute(cell.attr));
    lemma_counts_small(Command::SetForegroundColor(cell.fg));
    lemma_counts_small(Command::SetBackgroundColor(cell.bg));
    lemma_counts_small(Command::Write(cell.ch));
    lemma_counts_add(a, b);
    lemma_counts_add(a + b, c);
    lemma_counts_add(a + b + c, d);
}

proof fn lemma_counts_full_cells(row: Seq<Cell>, n: nat)
    ensures
        cells_drawn(full_cells(row, n)) == n,
        cursor_moves(full_cells(row, n)) == 0,
    decreases n,
{
    if n == 0 {
        lemma_full_cells_step(row, 0);
        lemma_counts_small(Command::Flush);
    } else {
        let m = (n - 1) as nat;
        lemma_counts_full_cells(row, m);
        lemma_full_cells_step(row, m);
        lemma_counts_cell(row[m as int]);
        lemma_counts_add(full_cells(row, m), row[m as int].commands());
    }
}

proof fn lemma_counts_full_rows(frame: Frame, w: nat, h: nat, n: nat)
    requires
        is_frame(frame, w, h),
        n <= h,
    ensures
        cells_drawn(full_rows(frame, n)) == n * w,
        cursor_moves(full_rows(frame, n)) == n,
    decreases n,
{
    if n == 0 {
        lemma_full_rows_step(frame, 0);
        lemma_counts_small(Command::Flush);
    } else {
        let m = (n - 1) as nat;
        let row = frame[m as int];
        lemma_counts_full_rows(frame, w, h, m);
        lemma_full_rows_step(frame, m);
        lemma_counts_full_cells(row, row.len());
        lemma_counts_small(Command::MoveTo(0, m as u16));
        lemma_counts_add(seq![Command::MoveTo(0, m as u16)], full_cells(row, row.len()));
        lemma_counts_add(full_rows(frame, m), full_row(row, m as int));
        assert(n * w == m * w + w) by (nonlinear_arith)
            requires
                n == m + 1,
        ;
    }
}

/// The first render of a display repaints everything, whatever was drawn.
///
/// As long as no frame has been sent, what a render sends is the full repaint
/// of the current frame and a flush. It moves the cursor once for each of the
/// `h` rows and draws each of the `w * h` cells.
pub proof fn lemma_first_render_is_full(s: DisplayState)
    requires
        s.wf(),
        s.previous is None,
    ensures
        s.commands() == full_rows(s.current, s.h as nat).push(Command::Flush),
        cells_drawn(s.commands()) == s.w * s.h,
        cursor_moves(s.commands()) == s.h,
{
    let body = full_rows(s.current, s.h as nat);
    lemma_counts_full_rows(s.current, s.w as nat, s.h as nat, s.h as nat);
    lemma_counts_small(Command::Flush);
    lemma_counts_add(body, seq![Command::Flush]);
    assert(body.push(Command::Flush) =~= body + seq![Command::Flush]);
    assert(s.h * s.w == s.w * s.h) by (nonlinear_arith);
}

/// A delta repaint sends nothing for cells that did not change.
proof fn lemma_delta_cells_unchanged(before: Seq<Cell>, after: Seq<Cell>, y: int, n: nat)
    requires
        forall|x: int| 0 <= x < n ==> before[x] == after[x],
    ensures
        delta_cells(before, after, y, n) == Seq::<Command>::empty(),
    decreases n,
{
    if n == 0 {
        lemma_delta_cells_step(before, after, y, 0);
    } else {
        let m = (n - 1) as nat;
        lemma_delta_cells_unchanged(before, after, y, m);
        lemma_delta_cells_step(before, after, y, m);
    }
}

/// A delta repaint sends nothing for rows that did not change.
proof fn lemma_delta_rows_unchanged(before: Frame, after: Frame, n: nat)
    requires
        forall|y: int| 0 <= y < n ==> before[y] == after[y],
    ensures
        delta_rows(before, after, n) == Seq::<Command>::empty(),
    decreases n,
{
    if n == 0 {
        lemma_delta_rows_step(before, after, 0);
    } else {
        let m = (n - 1) as nat;
        lemma_delta_rows_unchanged(before, after, m);
        lemma_delta_rows_step(before, after, m);
        lemma_delta_cells_unchanged(before[m as int], after[m as int], m as int, after[m as int].len());
    }
}

/// Rendering the same frame again sends no cell.
///
/// Let a render of `s` succeed, and let the caller then draw, cell for cell,
/// the frame that was just sent. The next render sends the flush and nothing
/// else.
pub proof fn lemma_same_frame_sends_nothing(s: DisplayState, t: DisplayState)
    requires
        s.wf(),
        s.rotate().redrawn_as(t),
        t.current == s.current,
    ensures
        t.commands() == seq![Command::Flush],
        cells_drawn(t.commands()) == 0,
        cursor_moves(t.commands()) == 0,
{
    lemma_delta_rows_unchanged(s.current, t.current, t.current.len());
    assert(t.commands() =~= seq![Command::Flush]);
    lemma_counts_small(Command::Flush);
}

/// In the row of the one cell that changed, a delta repaint sends that cell
/// and no other, once the row has been walked past it.
proof fn lemma_delta_cells_one_change(row: Seq<Cell>, x: int, y: int, cell: Cell, n: nat)
    requires
        0 <= x < row.len(),
        n <= row.len(),
        cell != row[x],
    ensures
        delta_cells(row, row.update(x, cell), y, n) == if n <= x {
            Seq::<Command>::empty()
        } else {
            seq![Command::MoveTo(x as u16, y as u16)] + cell.commands()
        },
    decreases n,
{
    let after = row.update(x, cell);
    if n == 0 {
        lemma_delta_cells_step(row, after, y, 0);
    } else {
        let m = (n - 1) as nat;
        lemma_delta_cells_one_change(row, x, y, cell, m);
        lemma_delta_cells_step(row, after, y, m);
    }
}

/// With one cell changed, a delta repaint sends that cell and no other, once
/// the frame has been walked past its row.
proof fn lemma_delta_rows_one_change(before: Frame, x: int, y: int, cell: Cell, n: nat)
    requires
        0 <= y < before.len(),
        0 <= x < before[y].len(),
        n <= before.len(),
        cell != before[y][x],
    ensures
        delta_rows(before, before.update(y, before[y].update(x, cell)), n) == if n <= y {
            Seq::<Command>::empty()
        } else {
            seq![Command::MoveTo(x as u16, y as u16)] + cell.commands()
        },
    decreases n,
{
    let after = before.update(y, before[y].update(x, cell));
    if n == 0 {
        lemma_delta_rows_step(before, after, 0);
    } else {
        let m = (n - 1) as nat;
        lemma_delta_rows_one_change(before, x, y, cell, m);
        lemma_delta_rows_step(before, after, m);
        if m == y {
            lemma_delta_cells_one_change(before[y], x, y, cell, before[y].len());
        } else {
            lemma_delta_cells_unchanged(before[m as int], after[m as int], m as int, after[m as int].len());
        }
    }
}

/// One changed cell costs one cursor move and one cell.
///
/// Let a render of `s` succeed, and let the caller then draw the frame that
/// was just sent, but for the cell in column `x`, row `y`, which now holds
/// another value, `cell`. The next render moves the cursor to that position,
/// draws `cell`, and flushes; it sends nothing for any other position.
pub proof fn lemma_one_change_sends_one_cell(
    s: DisplayState,
    t: DisplayState,
    x: int,
    y: int,
    cell: Cell,
)
    requires
        s.wf(),
        s.contains(x, y),
        s.rotate().redrawn_as(t),
        t.current == s.write(x, y, cell).current,
        cell != s.current[y][x],
    ensures
        t.commands() == (seq![Command::MoveTo(x as u16, y as u16)] + cell.commands()).push(
            Command::Flush,
        ),
        cells_drawn(t.commands()) == 1,
        cursor_moves(t.commands()) == 1,
{
    let moved = seq![Command::MoveTo(x as u16, y as u16)];
    lemma_delta_rows_one_change(s.current, x, y, cell, s.current.len());
    lemma_counts_small(Command::MoveTo(x as u16, y as u16));
    lemma_counts_small(Command::Flush);
    lemma_counts_cell(cell);
    lemma_counts_add(moved, cell.commands());
    lemma_counts_add(moved + cell.commands(), seq![Command::Flush]);
    assert((moved + cell.commands()).push(Command::Flush) =~= moved + cell.commands()
        + seq![Command::Flush]);
}

/// A resize forces a full repaint.
///
/// Whatever the display held and whatever the terminal showed before, once
/// the display was resized to `w` columns and `h` rows the next render, after
/// any drawing, is the full repaint of the current frame: it draws each of the
/// `w * h` cells, also those that happen to look as they did before.
pub proof fn lemma_render_after_resize_is_full(w: u16, h: u16, t: DisplayState)
    requires
        t.wf(),
        DisplayState::blank(w, h).redrawn_as(t),
    ensures
        t.commands() == full_rows(t.current, h as nat).push(Command::Flush),
        cells_drawn(t.commands()) == w * h,
        cursor_moves(t.commands()) == h,
{
    lemma_first_render_is_full(t);
}

/// In a frame that holds one cell throughout, the first `n` cells of a row are
/// all drawn alike, in a full repaint and in a delta repaint.
proof fn lemma_uniform_cells(before: Seq<Cell>, row: Seq<Cell>, y: int, cell: Cell, n: nat)
    requires
        forall|x: int| 0 <= x < n ==> row[x] == cell,
    ensures
        draws_only(full_cells(row, n), cell),
        draws_only(delta_cells(before, row, y, n), cell),
    decreases n,
{
    if n == 0 {
        lemma_full_cells_step(row, 0);
        lemma_delta_cells_step(before, row, y, 0);
    } else {
        let m = (n - 1) as nat;
        lemma_uniform_cells(before, row, y, cell, m);
        lemma_full_cells_step(row, m);
        lemma_delta_cells_step(before, row, y, m);
    }
}

/// In a frame that holds one cell throughout, the first `n` rows are all drawn
/// alike, in a full repaint and in a delta repaint.
proof fn lemma_uniform_rows(before: Frame, w: nat, h: nat, cell: Cell, n: nat)
    requires
        n <= h,
    ensures
        draws_only(full_rows(filled(w, h, cell), n), cell),
        draws_only(delta_rows(before, filled(w, h, cell), n), cell),
    decreases n,
{
    let frame = filled(w, h, cell);
    if n == 0 {
        lemma_full_rows_step(frame, 0);
        lemma_delta_rows_step(before, frame, 0);
    } else {
        let m = (n - 1) as nat;
        lemma_uniform_rows(before, w, h, cell, m);
        lemma_full_rows_step(frame, m);
        lemma_delta_rows_step(before, frame, m);
        lemma_uniform_cells(before[m as int], frame[m as int], m as int, cell, w);
    }
}

/// After a clear, a render draws nothing but the empty cell.
///
/// Let the current frame be cleared to a background colour and rendered with
/// no write in between. Whether that is a full repaint or a delta repaint,
/// every cell that it draws is the empty cell on that background; and in a
/// full repaint all `w * h` cells are drawn.
pub proof fn lemma_cleared_frame_draws_empty_cells(s: DisplayState, color: Color)
    requires
        s.wf(),
    ensures
        draws_only(s.clear_colored(color).commands(), Cell::empty_colored(color)),
        s.previous is None ==> cells_drawn(s.clear_colored(color).commands()) == s.w * s.h,
{
    let t = s.clear_colored(color);
    match s.previous {
        None => {
            lemma_uniform_rows(Seq::empty(), s.w as nat, s.h as nat, Cell::empty_colored(color), s.h as nat);
            lemma_first_render_is_full(t);
        },
        Some(previous) => {
            lemma_uniform_rows(previous, s.w as nat, s.h as nat, Cell::empty_colored(color), s.h as nat);
        },
    }
}

/// The first `n` cells of a row are drawn inside the grid, in a full repaint
/// and in a delta repaint.
proof fn lemma_cells_on_grid(before: Seq<Cell>, row: Seq<Cell>, y: int, w: nat, h: nat, n: nat)
    requires
        n <= w <= u16::MAX,
        0 <= y < h <= u16::MAX,
    ensures
        draws_on_grid(full_cells(row, n), w, h),
        draws_on_grid(delta_cells(before, row, y, n), w, h),
    decreases n,
{
    if n == 0 {
        lemma_full_cells_step(row, 0);
        lemma_delta_cells_step(before, row, y, 0);
    } else {
        let m = (n - 1) as nat;
        lemma_cells_on_grid(before, row, y, w, h, m);
        lemma_full_cells_step(row, m);
        lemma_delta_cells_step(before, row, y, m);
    }
}

/// The first `n` rows of a frame are drawn inside the grid, in a full repaint
/// and in a delta repaint.
proof fn lemma_rows_on_grid(before: Frame, frame: Frame, w: nat, h: nat, n: nat)
    requires
        is_frame(frame, w, h),
        w <= u16::MAX,
        n <= h <= u16::MAX,
    ensures
        draws_on_grid(full_rows(frame, n), w, h),
        draws_on_grid(delta_rows(before, frame, n), w, h),
    decreases n,
{
    if n == 0 {
        lemma_full_rows_step(frame, 0);
        lemma_delta_rows_step(before, frame, 0);
    } else {
        let m = (n - 1) as nat;
        lemma_rows_on_grid(before, frame, w, h, m);
        lemma_full_rows_step(frame, m);
        lemma_delta_rows_step(before, frame, m);
        lemma_cells_on_grid(before[m as int], frame[m as int], m as int, w, h, w);
    }
}

/// A render flushes once, at the very end, and stays on the grid.
///
/// All that a render sends before its final flush draws cells: nothing in it
/// flushes or clears the screen, and each cursor move goes to a row below `h`
/// and a column below `w` (or to column 0), so to coordinates below
/// `u16::MAX`.
pub proof fn lemma_render_flushes_once_and_stays_on_grid(s: DisplayState)
    requires
        s.wf(),
    ensures
        s.commands().len() > 0,
        s.commands().last() == Command::Flush,
        draws_on_grid(s.commands().drop_last(), s.w as nat, s.h as nat),
{
    let before = match s.previous {
        None => Seq::empty(),
        Some(previous) => previous,
    };
    lemma_rows_on_grid(before, s.current, s.w as nat, s.h as nat, s.h as nat);
    let body = match s.previous {
        None => full_rows(s.current, s.h as nat),
        Some(previous) => delta_rows(previous, s.current, s.h as nat),
    };
    assert(s.commands().drop_last() =~= body);
}

/// Clearing twice is clearing once, and of several clears in a row, in
/// whatever colours, only the last one counts.
pub proof fn lemma_clear_is_idempotent(s: DisplayState, first: Color, last: Color)
    ensures
        s.clear().clear() == s.clear(),
        s.clear_colored(last).clear_colored(last) == s.clear_colored(last),
        s.clear_colored(first).clear_colored(last) == s.clear_colored(last),
{
}

} // verus!
