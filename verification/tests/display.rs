use crossterm_display::display::BoundsError;
use crossterm_display::{Attribute, Cell, Color, Command, TerminalDisplay};

fn hash() -> Cell {
    Cell { ch: b'#', fg: Color::White, bg: Color::Black, attr: Attribute::Bold }
}

fn cell_commands(cell: Cell) -> Vec<Command> {
    vec![
        Command::SetAttribute(cell.attr),
        Command::SetForegroundColor(cell.fg),
        Command::SetBackgroundColor(cell.bg),
        Command::Write(cell.ch),
    ]
}

/// The full repaint of a frame, written out row by row, with its flush.
fn full_repaint(frame: &[Vec<Cell>]) -> Vec<Command> {
    let mut expected = Vec::new();
    for (y, row) in frame.iter().enumerate() {
        expected.push(Command::MoveTo(0, y as u16));
        for cell in row {
            expected.extend(cell_commands(*cell));
        }
    }
    expected.push(Command::Flush);
    expected
}

fn count_writes(commands: &[Command]) -> usize {
    commands.iter().filter(|command| matches!(command, Command::Write(_))).count()
}

fn count_moves(commands: &[Command]) -> usize {
    commands.iter().filter(|command| matches!(command, Command::MoveTo(_, _))).count()
}

fn rendered(display: &mut TerminalDisplay) -> Vec<Command> {
    let commands = display.render();
    assert_eq!(display.finish::<()>(Ok(())), Ok(()));
    commands
}

#[test]
fn new_display_has_the_given_size() {
    let display = TerminalDisplay::new(3, 2);
    assert_eq!(display.w(), 3);
    assert_eq!(display.h(), 2);
}

#[test]
fn first_render_of_an_untouched_display_paints_six_empty_cells() {
    let mut display = TerminalDisplay::new(3, 2);
    let commands = display.render();
    assert_eq!(commands, full_repaint(&vec![vec![Cell::empty(); 3]; 2]));
    assert_eq!(count_writes(&commands), 6);
    assert_eq!(count_moves(&commands), 2);
    assert_eq!(commands.len(), 2 * (1 + 3 * 4) + 1);
    for command in &commands {
        match command {
            Command::Write(ch) => assert_eq!(*ch, b' '),
            Command::SetForegroundColor(fg) => assert_eq!(*fg, Color::White),
            Command::SetBackgroundColor(bg) => assert_eq!(*bg, Color::Black),
            Command::SetAttribute(attr) => assert_eq!(*attr, Attribute::Reset),
            _ => {}
        }
    }
    assert_eq!(display.finish::<()>(Ok(())), Ok(()));
    // The baseline is the all-empty grid now, and so is the current frame.
    assert_eq!(display.render(), vec![Command::Flush]);
}

#[test]
fn first_render_spelled_out() {
    let display = TerminalDisplay::new(2, 1);
    assert_eq!(
        display.render(),
        vec![
            Command::MoveTo(0, 0),
            Command::SetAttribute(Attribute::Reset),
            Command::SetForegroundColor(Color::White),
            Command::SetBackgroundColor(Color::Black),
            Command::Write(b' '),
            Command::SetAttribute(Attribute::Reset),
            Command::SetForegroundColor(Color::White),
            Command::SetBackgroundColor(Color::Black),
            Command::Write(b' '),
            Command::Flush,
        ]
    );
}

#[test]
fn first_render_after_a_write_paints_the_whole_frame() {
    let mut display = TerminalDisplay::new(3, 2);
    assert_eq!(display.write(1, 0, hash()), Ok(()));
    let commands = display.render();
    let mut frame = vec![vec![Cell::empty(); 3]; 2];
    frame[0][1] = hash();
    assert_eq!(commands, full_repaint(&frame));
    assert_eq!(count_writes(&commands), 6);
    assert_eq!(commands.iter().filter(|command| **command == Command::Write(b'#')).count(), 1);
    assert_eq!(
        commands.iter().filter(|command| **command == Command::SetAttribute(Attribute::Bold)).count(),
        1
    );
    // The hash is the second cell of the first row.
    assert_eq!(commands[5..9].to_vec(), cell_commands(hash()));
}

#[test]
fn render_after_a_success_sends_only_what_changed() {
    let mut display = TerminalDisplay::new(3, 2);
    assert_eq!(display.write(1, 0, hash()), Ok(()));
    rendered(&mut display);
    // Nothing is drawn now: the current frame is empty again, and differs from
    // what was sent in the one cell that held the hash.
    let commands = display.render();
    assert_eq!(
        commands,
        vec![
            Command::MoveTo(1, 0),
            Command::SetAttribute(Attribute::Reset),
            Command::SetForegroundColor(Color::White),
            Command::SetBackgroundColor(Color::Black),
            Command::Write(b' '),
            Command::Flush,
        ]
    );
    assert_eq!(count_moves(&commands), 1);
    assert_eq!(count_writes(&commands), 1);
}

#[test]
fn resize_forces_a_full_repaint() {
    let mut display = TerminalDisplay::new(3, 2);
    assert_eq!(display.write(1, 0, hash()), Ok(()));
    rendered(&mut display);
    rendered(&mut display);
    display.resize(4, 4);
    assert_eq!(display.w(), 4);
    assert_eq!(display.h(), 4);
    let commands = display.render();
    assert_eq!(commands, full_repaint(&vec![vec![Cell::empty(); 4]; 4]));
    assert_eq!(count_writes(&commands), 16);
    assert_eq!(count_moves(&commands), 4);
}

#[test]
fn resize_to_the_same_size_still_forces_a_full_repaint() {
    let mut display = TerminalDisplay::new(3, 2);
    rendered(&mut display);
    // What the terminal shows is the all-empty grid, which is also what the
    // resized display holds, cell for cell.
    display.resize(3, 2);
    let commands = display.render();
    assert_eq!(commands, full_repaint(&vec![vec![Cell::empty(); 3]; 2]));
    assert_eq!(count_writes(&commands), 6);
}

#[test]
fn resize_empties_the_current_frame() {
    let mut display = TerminalDisplay::new(3, 2);
    assert_eq!(display.write(2, 1, hash()), Ok(()));
    display.resize(3, 2);
    assert_eq!(display.render(), full_repaint(&vec![vec![Cell::empty(); 3]; 2]));
}

#[test]
fn rendering_the_same_frame_again_sends_no_cell() {
    let at = Cell { ch: b'@', fg: Color::Yellow, bg: Color::DarkBlue, attr: Attribute::Underlined };
    let mut display = TerminalDisplay::new(4, 3);
    assert_eq!(display.write(1, 0, hash()), Ok(()));
    assert_eq!(display.write(3, 2, at), Ok(()));
    assert_eq!(count_writes(&rendered(&mut display)), 12);
    assert_eq!(display.write(3, 2, at), Ok(()));
    assert_eq!(display.write(1, 0, hash()), Ok(()));
    assert_eq!(rendered(&mut display), vec![Command::Flush]);
    assert_eq!(display.write(1, 0, hash()), Ok(()));
    assert_eq!(display.write(3, 2, at), Ok(()));
    assert_eq!(rendered(&mut display), vec![Command::Flush]);
}

#[test]
fn one_changed_cell_costs_one_move_and_one_cell() {
    let at = Cell { ch: b'@', fg: Color::Yellow, bg: Color::DarkBlue, attr: Attribute::Underlined };
    let mut display = TerminalDisplay::new(4, 3);
    assert_eq!(display.write(1, 0, hash()), Ok(()));
    assert_eq!(display.write(3, 2, at), Ok(()));
    rendered(&mut display);
    assert_eq!(display.write(1, 0, hash()), Ok(()));
    assert_eq!(display.write(3, 2, Cell { attr: Attribute::Reset, ..at }), Ok(()));
    let mut expected = vec![Command::MoveTo(3, 2)];
    expected.extend(cell_commands(Cell { attr: Attribute::Reset, ..at }));
    expected.push(Command::Flush);
    assert_eq!(display.render(), expected);
}

#[test]
fn changed_cells_are_sent_in_row_major_order() {
    let mut display = TerminalDisplay::new(3, 3);
    rendered(&mut display);
    let a = Cell { ch: b'a', ..Cell::empty() };
    let b = Cell { ch: b'b', ..Cell::empty() };
    let c = Cell { ch: b'c', ..Cell::empty() };
    assert_eq!(display.write(2, 2, c), Ok(()));
    assert_eq!(display.write(0, 1, b), Ok(()));
    assert_eq!(display.write(2, 0, a), Ok(()));
    let mut expected = vec![Command::MoveTo(2, 0)];
    expected.extend(cell_commands(a));
    expected.push(Command::MoveTo(0, 1));
    expected.extend(cell_commands(b));
    expected.push(Command::MoveTo(2, 2));
    expected.extend(cell_commands(c));
    expected.push(Command::Flush);
    assert_eq!(display.render(), expected);
}

#[test]
fn neighbouring_changed_cells_each_get_their_own_move() {
    let mut display = TerminalDisplay::new(3, 1);
    rendered(&mut display);
    let a = Cell { ch: b'a', ..Cell::empty() };
    assert_eq!(display.write(0, 0, a), Ok(()));
    assert_eq!(display.write(1, 0, a), Ok(()));
    let commands = display.render();
    assert_eq!(count_moves(&commands), 2);
    assert_eq!(count_writes(&commands), 2);
    assert_eq!(commands[0], Command::MoveTo(0, 0));
    assert_eq!(commands[5], Command::MoveTo(1, 0));
}

#[test]
fn write_replaces_the_cell_that_was_written_before() {
    let mut display = TerminalDisplay::new(2, 2);
    assert_eq!(display.write(1, 1, hash()), Ok(()));
    assert_eq!(display.write(1, 1, Cell { ch: b'!', ..hash() }), Ok(()));
    let mut frame = vec![vec![Cell::empty(); 2]; 2];
    frame[1][1] = Cell { ch: b'!', ..hash() };
    assert_eq!(display.render(), full_repaint(&frame));
}

#[test]
fn write_takes_the_column_first_and_the_row_second() {
    let mut display = TerminalDisplay::new(3, 2);
    assert_eq!(display.write(2, 1, hash()), Ok(()));
    let mut frame = vec![vec![Cell::empty(); 3]; 2];
    frame[1][2] = hash();
    assert_eq!(display.render(), full_repaint(&frame));
    // Column 1 exists in a grid of three columns, row 2 does not in one of two rows.
    assert_eq!(display.write(1, 2, hash()), Err(BoundsError { x: 1, y: 2, w: 3, h: 2 }));
}

#[test]
fn write_outside_the_grid_is_refused() {
    let mut display = TerminalDisplay::new(3, 2);
    assert_eq!(display.write(3, 0, hash()), Err(BoundsError { x: 3, y: 0, w: 3, h: 2 }));
    assert_eq!(display.write(0, 2, hash()), Err(BoundsError { x: 0, y: 2, w: 3, h: 2 }));
    assert_eq!(display.write(3, 2, hash()), Err(BoundsError { x: 3, y: 2, w: 3, h: 2 }));
    assert_eq!(
        display.write(usize::MAX, usize::MAX, hash()),
        Err(BoundsError { x: usize::MAX, y: usize::MAX, w: 3, h: 2 })
    );
    // A position beyond what a u16 holds is not taken for one inside it.
    assert_eq!(display.write(65536, 0, hash()), Err(BoundsError { x: 65536, y: 0, w: 3, h: 2 }));
    assert_eq!(display.write(0, 65537, hash()), Err(BoundsError { x: 0, y: 65537, w: 3, h: 2 }));
    // The corners are inside.
    assert_eq!(display.write(0, 0, hash()), Ok(()));
    assert_eq!(display.write(2, 1, hash()), Ok(()));
}

#[test]
fn refused_write_leaves_the_display_as_it_was() {
    let mut display = TerminalDisplay::new(3, 2);
    assert_eq!(display.write(1, 0, hash()), Ok(()));
    let before = display.render();
    assert!(display.write(3, 1, Cell { ch: b'!', ..hash() }).is_err());
    assert!(display.write(1, 2, Cell { ch: b'!', ..hash() }).is_err());
    assert_eq!(display.render(), before);
    assert_eq!(display.w(), 3);
    assert_eq!(display.h(), 2);
}

#[test]
fn every_write_to_a_display_without_cells_is_refused() {
    let mut display = TerminalDisplay::new(0, 0);
    assert_eq!(display.write(0, 0, hash()), Err(BoundsError { x: 0, y: 0, w: 0, h: 0 }));
    let mut display = TerminalDisplay::new(0, 2);
    assert_eq!(display.write(0, 1, hash()), Err(BoundsError { x: 0, y: 1, w: 0, h: 2 }));
    let mut display = TerminalDisplay::new(2, 0);
    assert_eq!(display.write(1, 0, hash()), Err(BoundsError { x: 1, y: 0, w: 2, h: 0 }));
}

#[test]
fn render_does_not_change_the_display() {
    let mut display = TerminalDisplay::new(3, 2);
    assert_eq!(display.write(1, 0, hash()), Ok(()));
    let first = display.render();
    let second = display.render();
    assert_eq!(first, second);
    assert_eq!(count_writes(&second), 6);
}

#[test]
fn failed_first_render_is_repeated_in_full() {
    let mut display = TerminalDisplay::new(3, 2);
    assert_eq!(display.write(1, 0, hash()), Ok(()));
    let commands = display.render();
    assert_eq!(display.finish(Err("broken pipe")), Err("broken pipe"));
    // No frame has arrived: the next attempt is a full repaint of the same frame.
    assert_eq!(display.render(), commands);
    assert_eq!(count_writes(&commands), 6);
}

#[test]
fn failed_render_keeps_the_last_frame_that_arrived() {
    let mut display = TerminalDisplay::new(3, 2);
    assert_eq!(display.write(1, 0, hash()), Ok(()));
    rendered(&mut display);
    assert_eq!(display.write(2, 1, hash()), Ok(()));
    let attempt = display.render();
    assert_eq!(count_writes(&attempt), 2);
    assert_eq!(display.finish(Err(5u8)), Err(5u8));
    // The current frame was not reset, and the comparison is still with the
    // frame of the first render.
    assert_eq!(display.render(), attempt);
    assert_eq!(display.finish::<u8>(Ok(())), Ok(()));
    // Now the second frame is what the terminal shows.
    let commands = display.render();
    let mut expected = vec![Command::MoveTo(2, 1)];
    expected.extend(cell_commands(Cell::empty()));
    expected.push(Command::Flush);
    assert_eq!(commands, expected);
}

#[test]
fn finish_hands_the_outcome_on() {
    let mut display = TerminalDisplay::new(1, 1);
    assert_eq!(display.finish::<String>(Ok(())), Ok(()));
    assert_eq!(display.finish(Err(String::from("sink closed"))), Err(String::from("sink closed")));
    assert_eq!(display.finish(Err(17i64)), Err(17i64));
}

#[test]
fn successful_render_empties_the_current_frame() {
    let mut display = TerminalDisplay::new(2, 2);
    for y in 0..2 {
        for x in 0..2 {
            assert_eq!(display.write(x, y, hash()), Ok(()));
        }
    }
    rendered(&mut display);
    // All four cells went from the hash back to the empty cell.
    let commands = rendered(&mut display);
    assert_eq!(count_writes(&commands), 4);
    assert_eq!(count_moves(&commands), 4);
    assert_eq!(commands.iter().filter(|command| **command == Command::Write(b' ')).count(), 4);
    assert_eq!(rendered(&mut display), vec![Command::Flush]);
}

#[test]
fn render_ends_with_its_only_flush() {
    let mut display = TerminalDisplay::new(5, 4);
    assert_eq!(display.write(4, 3, hash()), Ok(()));
    for _ in 0..3 {
        let commands = rendered(&mut display);
        assert_eq!(commands.last(), Some(&Command::Flush));
        assert_eq!(commands.iter().filter(|command| **command == Command::Flush).count(), 1);
        assert!(!commands.contains(&Command::ClearAll));
    }
}

#[test]
fn cursor_moves_stay_on_the_grid() {
    let mut display = TerminalDisplay::new(5, 4);
    for round in 0..3u8 {
        for y in 0..4 {
            for x in 0..5 {
                if (x + y + round as usize) % 2 == 0 {
                    assert_eq!(display.write(x, y, Cell { ch: b'0' + round, ..hash() }), Ok(()));
                }
            }
        }
        for command in rendered(&mut display) {
            if let Command::MoveTo(x, y) = command {
                assert!(x < 5);
                assert!(y < 4);
            }
        }
    }
}

#[test]
fn display_without_rows_sends_only_the_flush() {
    let mut display = TerminalDisplay::new(0, 0);
    assert_eq!(display.render(), vec![Command::Flush]);
    assert_eq!(rendered(&mut display), vec![Command::Flush]);
    assert_eq!(rendered(&mut display), vec![Command::Flush]);
    let display = TerminalDisplay::new(7, 0);
    assert_eq!(display.w(), 7);
    assert_eq!(display.h(), 0);
    assert_eq!(display.render(), vec![Command::Flush]);
}

#[test]
fn display_without_columns_moves_to_each_row_in_a_full_repaint() {
    let mut display = TerminalDisplay::new(0, 3);
    assert_eq!(
        display.render(),
        vec![Command::MoveTo(0, 0), Command::MoveTo(0, 1), Command::MoveTo(0, 2), Command::Flush]
    );
    rendered(&mut display);
    assert_eq!(display.render(), vec![Command::Flush]);
}

#[test]
fn columns_beyond_a_byte_keep_their_number() {
    let mut display = TerminalDisplay::new(300, 2);
    rendered(&mut display);
    assert_eq!(display.write(299, 1, hash()), Ok(()));
    assert_eq!(display.write(256, 0, hash()), Ok(()));
    let commands = display.render();
    assert_eq!(commands[0], Command::MoveTo(256, 0));
    assert_eq!(commands[5], Command::MoveTo(299, 1));
    assert_eq!(commands.len(), 11);
}

#[test]
fn widest_display_reaches_its_last_column() {
    let mut display = TerminalDisplay::new(u16::MAX, 1);
    assert_eq!(display.w(), 65535);
    let commands = rendered(&mut display);
    assert_eq!(count_writes(&commands), 65535);
    assert_eq!(commands.len(), 1 + 4 * 65535 + 1);
    assert_eq!(display.write(65534, 0, hash()), Ok(()));
    assert_eq!(display.write(65535, 0, hash()), Err(BoundsError { x: 65535, y: 0, w: 65535, h: 1 }));
    let commands = display.render();
    assert_eq!(commands[0], Command::MoveTo(65534, 0));
    assert_eq!(commands.len(), 6);
}

#[test]
fn tallest_display_reaches_its_last_row() {
    let mut display = TerminalDisplay::new(1, u16::MAX);
    let commands = rendered(&mut display);
    assert_eq!(count_moves(&commands), 65535);
    assert_eq!(commands[commands.len() - 6], Command::MoveTo(0, 65534));
    assert_eq!(display.write(0, 65534, hash()), Ok(()));
    assert_eq!(display.render()[0], Command::MoveTo(0, 65534));
}

#[test]
fn queue_clear_clears_and_homes_the_cursor() {
    let mut q = Vec::new();
    TerminalDisplay::queue_clear(&mut q);
    assert_eq!(q, vec![Command::ClearAll, Command::MoveTo(0, 0)]);
    let mut q = vec![Command::Write(b'x')];
    TerminalDisplay::queue_clear(&mut q);
    assert_eq!(q, vec![Command::Write(b'x'), Command::ClearAll, Command::MoveTo(0, 0)]);
}
