//! The attributed cell's constructors and packing, the grid's startup
//! state, and the buffer guard's non-blocking acquisition discipline.

use hires_text::cell::AChar;
use hires_text::grid::{Grid, COLS, GRID_CELLS, ROWS};
use hires_text::guard::BufferGuard;

#[test]
fn cell_from_character_defaults_colors_to_zero() {
    let cell = AChar::from_character(b'Q');
    assert_eq!(cell, AChar { code: b'Q', foreground: 0, background: 0 });
}

#[test]
fn cell_color_setters_truncate_to_hardware_depth() {
    let cell = AChar::from_character(b'Q').with_foreground(0xFF).with_background(64);
    // 0xFF wraps to 63, 64 wraps to 0: silent truncation, not an error.
    assert_eq!(cell.foreground, 63);
    assert_eq!(cell.background, 0);
    // Setters return a modified copy, leaving the base cell untouched
    // and the other fields alone.
    let base = AChar::from_character(b'R').with_background(5);
    let tinted = base.with_foreground(7);
    assert_eq!(base.foreground, 0);
    assert_eq!(tinted, AChar { code: b'R', foreground: 7, background: 5 });
}

#[test]
fn cell_packs_code_then_foreground_then_background() {
    let cell = AChar { code: 0xAB, foreground: 0x21, background: 0x3F };
    assert_eq!(cell.packed(), 0x3F_21_AB);
    assert_eq!(AChar::default().packed(), 0);
}

#[test]
fn default_cell_is_the_zero_blank() {
    assert_eq!(AChar::default(), AChar { code: 0, foreground: 0, background: 0 });
}

#[test]
fn fresh_grid_is_all_blank_and_fixed_size() {
    let g = Grid::new();
    assert_eq!(GRID_CELLS, COLS * ROWS);
    for row in 0..ROWS {
        for col in 0..COLS {
            assert_eq!(g.cell_at(row, col), AChar::default());
        }
    }
}

#[test]
fn second_acquisition_fails_instead_of_blocking_or_succeeding() {
    // The guard hands the grid out once; while it is out, another attempt
    // fails at once.
    let mut guard = BufferGuard::new();
    let first = guard.try_acquire();
    assert!(first.is_some());
    let second = guard.try_acquire();
    assert!(second.is_none());
    // After release the grid can be acquired again.
    guard.release(first.unwrap());
    assert!(guard.try_acquire().is_some());
}

#[test]
fn guard_returns_the_released_grid_unchanged() {
    let mut guard = BufferGuard::new();
    let grid = guard.try_acquire().unwrap();
    let mut cursor = hires_text::cursor::Cursor::new(grid);
    assert_eq!(cursor.goto(4, 7), Ok(()));
    assert_eq!(cursor.putc(b'#'), Ok(()));
    guard.release(cursor.into_grid());
    let again = guard.try_acquire().unwrap();
    assert_eq!(again.cell_at(4, 7).code, b'#');
}
