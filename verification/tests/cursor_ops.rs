//! Terminal-style cursor behavior: writes, wrapping, line-break padding,
//! repositioning, clearing, and the errors past the grid's edges.

use hires_text::cell::AChar;
use hires_text::cursor::{Cursor, CursorError};
use hires_text::grid::{Grid, COLS, ROWS};

fn fresh_cursor() -> Cursor {
    Cursor::new(Grid::new())
}

#[test]
fn new_cursor_starts_top_left_with_startup_colors() {
    let c = fresh_cursor();
    assert_eq!(c.row, 0);
    assert_eq!(c.col, 0);
    assert_eq!(c.foreground, 0xFF);
    assert_eq!(c.background, 0x20);
}

#[test]
fn putc_writes_cell_with_truncated_colors_and_advances() {
    let mut c = fresh_cursor();
    c.foreground = 0xFF;
    c.background = 0x30;
    assert_eq!(c.putc(b'A'), Ok(()));
    assert_eq!(c.row, 0);
    assert_eq!(c.col, 1);
    let cell = c.grid.cell_at(0, 0);
    assert_eq!(cell, AChar { code: b'A', foreground: 63, background: 0x30 });
}

#[test]
fn writing_full_row_wraps_without_padding() {
    // Exactly COLS ordinary characters from column 0 leave the cursor at
    // column 0 of the next row, and insert no blank padding anywhere.
    let mut c = fresh_cursor();
    c.foreground = 0b11_11_11;
    c.background = 0b00_00_11;
    let row: String = core::iter::repeat('x').take(COLS).collect();
    assert_eq!(c.puts(&row), Ok(()));
    assert_eq!(c.row, 1);
    assert_eq!(c.col, 0);
    for col in 0..COLS {
        assert_eq!(c.grid.cell_at(0, col).code, b'x');
    }
    // The next row was never touched: still the zero blank, not a space.
    assert_eq!(c.grid.cell_at(1, 0), AChar { code: 0, foreground: 0, background: 0 });
}

#[test]
fn line_break_at_last_column_pads_row_end_in_current_colors() {
    // "AB\n" typed from column COLS-1: the break lands at column 1 of the
    // next row and pads from there to that row's end with blanks carrying
    // the current colors, then the cursor rests at column 0 of the row
    // after.
    let mut c = fresh_cursor();
    c.foreground = 0b11_11_11;
    c.background = 0b00_00_11;
    assert_eq!(c.goto(5, COLS - 1), Ok(()));
    assert_eq!(c.puts("AB\n"), Ok(()));
    assert_eq!(c.row, 7);
    assert_eq!(c.col, 0);
    assert_eq!(c.grid.cell_at(5, COLS - 1).code, b'A');
    assert_eq!(c.grid.cell_at(6, 0).code, b'B');
    for col in 1..COLS {
        let cell = c.grid.cell_at(6, col);
        assert_eq!(cell, AChar { code: b' ', foreground: 63, background: 0b00_00_11 });
    }
}

#[test]
fn line_break_at_row_start_pads_whole_row() {
    // The break pads from the current column to the row's end; at column 0
    // that is every cell of the row, blanked in the current colors.
    let mut c = fresh_cursor();
    c.foreground = 0b11_11_11;
    c.background = 0b01_01_01;
    assert_eq!(c.goto(3, 0), Ok(()));
    assert_eq!(c.putc(b'\n'), Ok(()));
    assert_eq!(c.row, 4);
    assert_eq!(c.col, 0);
    for col in 0..COLS {
        let cell = c.grid.cell_at(3, col);
        assert_eq!(cell, AChar { code: b' ', foreground: 63, background: 0b01_01_01 });
    }
}

#[test]
fn written_region_reads_back_codes_and_colors() {
    // A break-free write reads back, in order, exactly the codes and
    // colors that were passed in.
    let mut c = fresh_cursor();
    c.foreground = 0b00_11_00;
    c.background = 0b01_01_01;
    assert_eq!(c.goto(2, 3), Ok(()));
    assert_eq!(c.puts("Hello"), Ok(()));
    let text = b"Hello";
    for (i, code) in text.iter().enumerate() {
        let cell = c.grid.cell_at(2, 3 + i);
        assert_eq!(cell.code, *code);
        assert_eq!(cell.foreground, 0b00_11_00);
        assert_eq!(cell.background, 0b01_01_01);
    }
    assert_eq!(c.row, 2);
    assert_eq!(c.col, 8);
}

#[test]
fn goto_out_of_range_reports_bad_position() {
    let mut c = fresh_cursor();
    assert_eq!(c.goto(ROWS, 0), Err(CursorError::BadPosition));
    assert_eq!(c.goto(0, COLS), Err(CursorError::BadPosition));
    // The failed repositioning changed nothing.
    assert_eq!(c.row, 0);
    assert_eq!(c.col, 0);
    assert_eq!(c.goto(ROWS - 1, COLS - 1), Ok(()));
}

#[test]
fn write_past_last_row_reports_past_end() {
    let mut c = fresh_cursor();
    assert_eq!(c.goto(ROWS - 1, 0), Ok(()));
    let row: String = core::iter::repeat('y').take(COLS).collect();
    assert_eq!(c.puts(&row), Ok(()));
    assert_eq!(c.row, ROWS);
    assert_eq!(c.col, 0);
    assert_eq!(c.putc(b'z'), Err(CursorError::PastEnd));
    assert_eq!(c.puts("z"), Err(CursorError::PastEnd));
    // The refused writes changed nothing.
    assert_eq!(c.row, ROWS);
    assert_eq!(c.col, 0);
    assert_eq!(c.grid.cell_at(ROWS - 1, COLS - 1).code, b'y');
}

#[test]
fn clear_fills_grid_with_blanks_in_current_colors() {
    let mut c = fresh_cursor();
    assert_eq!(c.puts("leftover"), Ok(()));
    c.foreground = 0b11_11_11;
    c.background = 0b01_01_01;
    c.clear();
    assert_eq!(c.row, ROWS);
    assert_eq!(c.col, 0);
    for row in 0..ROWS {
        for col in 0..COLS {
            let cell = c.grid.cell_at(row, col);
            assert_eq!(cell, AChar { code: b' ', foreground: 63, background: 0b01_01_01 });
        }
    }
}

#[test]
fn write_str_truncates_wide_code_points() {
    // U+0101 has code point 257: it is written as its low byte, 1.
    let mut c = fresh_cursor();
    assert_eq!(c.write_str("\u{0101}"), Ok(()));
    assert_eq!(c.grid.cell_at(0, 0).code, 1);
    assert_eq!(c.col, 1);
}
