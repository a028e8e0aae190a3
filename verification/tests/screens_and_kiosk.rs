//! The screen library's repaints and the input-driven state machine:
//! idempotent repaints, dispatch on change only, fallback for unmapped
//! codes, and the diagnostic overlay.

use hires_text::cell::AChar;
use hires_text::cursor::Cursor;
use hires_text::grid::{Grid, COLS, ROWS};
use hires_text::kiosk::{
    input_code, paint, raster_op, screen_for_code, step, RasterOp, Screen, TEXT_LINES,
    VISIBLE_LINES,
};
use hires_text::screens::{screen_confirm, screen_error, screen_thanks};

fn fresh_cursor() -> Cursor {
    Cursor::new(Grid::new())
}

fn grids_equal(a: &Grid, b: &Grid) -> bool {
    for row in 0..ROWS {
        for col in 0..COLS {
            if a.cell_at(row, col) != b.cell_at(row, col) {
                return false;
            }
        }
    }
    true
}

#[test]
fn repainting_a_screen_is_idempotent() {
    // The same procedure twice in succession leaves byte-identical
    // contents both times, whatever was on the grid before.
    let mut c1 = fresh_cursor();
    assert_eq!(c1.puts("stale contents"), Ok(()));
    assert_eq!(screen_confirm(&mut c1), Ok(()));
    let mut c2 = Cursor::new(c1.into_grid());
    assert_eq!(screen_confirm(&mut c2), Ok(()));
    let once = c2.into_grid();
    let mut c3 = fresh_cursor();
    assert_eq!(screen_confirm(&mut c3), Ok(()));
    assert!(grids_equal(&once, &c3.into_grid()));
}

#[test]
fn error_screen_layout() {
    let mut c = fresh_cursor();
    assert_eq!(screen_error(&mut c), Ok(()));
    assert_eq!(c.row, 3);
    assert_eq!(c.col, 0);
    assert_eq!(c.foreground, 0b11_11_11);
    assert_eq!(c.background, 0b00_00_00);
    // Three-row red title bar; ERROR starts at column 37 of row 1.
    for col in 0..COLS {
        assert_eq!(c.grid.cell_at(0, col), AChar {
            code: b' ',
            foreground: 63,
            background: 0b00_00_11,
        });
        assert_eq!(c.grid.cell_at(2, col).background, 0b00_00_11);
    }
    for (i, code) in b"ERROR".iter().enumerate() {
        let cell = c.grid.cell_at(1, 37 + i);
        assert_eq!(cell.code, *code);
        assert_eq!(cell.background, 0b00_00_11);
        assert_eq!(cell.foreground, 63);
    }
    // The field below the bar is blank white-on-blue.
    assert_eq!(c.grid.cell_at(3, 0), AChar { code: b' ', foreground: 63, background: 0b11_00_00 });
    assert_eq!(c.grid.cell_at(36, 79), AChar {
        code: b' ',
        foreground: 63,
        background: 0b11_00_00,
    });
}

#[test]
fn confirm_screen_shows_both_options() {
    let mut c = fresh_cursor();
    assert_eq!(screen_confirm(&mut c), Ok(()));
    for (i, code) in b" YES ".iter().enumerate() {
        let cell = c.grid.cell_at(12, i);
        assert_eq!(cell.code, *code);
        assert_eq!(cell.background, 0b00_10_00);
    }
    for (i, code) in b" NO  ".iter().enumerate() {
        let cell = c.grid.cell_at(25, i);
        assert_eq!(cell.code, *code);
        assert_eq!(cell.background, 0b00_00_10);
    }
    for (i, code) in b" continue? ".iter().enumerate() {
        assert_eq!(c.grid.cell_at(20, 35 + i).code, *code);
    }
}

#[test]
fn thanks_screen_message_is_black_on_dim_green() {
    let mut c = fresh_cursor();
    assert_eq!(screen_thanks(&mut c), Ok(()));
    for (i, code) in b" Thanks for ".iter().enumerate() {
        let cell = c.grid.cell_at(18, 34 + i);
        assert_eq!(cell.code, *code);
        assert_eq!(cell.foreground, 0);
        assert_eq!(cell.background, 0b00_01_00);
    }
    assert_eq!(c.foreground, 0);
    assert_eq!(c.background, 0b00_01_00);
}

#[test]
fn dispatch_table_maps_every_code() {
    assert_eq!(screen_for_code(0b000), Screen::Error);
    assert_eq!(screen_for_code(0b001), Screen::Start);
    assert_eq!(screen_for_code(0b010), Screen::Paying);
    assert_eq!(screen_for_code(0b011), Screen::Confirm);
    assert_eq!(screen_for_code(0b100), Screen::Line1);
    assert_eq!(screen_for_code(0b101), Screen::Line2);
    assert_eq!(screen_for_code(0b110), Screen::Thanks);
}

#[test]
fn unmapped_code_falls_back_to_the_idle_dispatch() {
    // 0b111 is unmapped: it dispatches the very procedure 0b000 does.
    assert_eq!(screen_for_code(0b111), screen_for_code(0b000));
    assert_eq!(screen_for_code(0b111), Screen::Error);
    let mut via_unmapped = fresh_cursor();
    assert_eq!(paint(screen_for_code(0b111), &mut via_unmapped), Ok(()));
    let mut via_idle = fresh_cursor();
    assert_eq!(paint(screen_for_code(0b000), &mut via_idle), Ok(()));
    assert!(grids_equal(&via_unmapped.into_grid(), &via_idle.into_grid()));
}

#[test]
fn input_lines_combine_bit_by_bit() {
    assert_eq!(input_code(false, false, false), 0b000);
    assert_eq!(input_code(true, false, false), 0b001);
    assert_eq!(input_code(false, true, false), 0b010);
    assert_eq!(input_code(false, false, true), 0b100);
    assert_eq!(input_code(true, true, true), 0b111);
}

#[test]
fn unchanged_code_skips_repaint_but_refreshes_overlay() {
    // With previous and current both 0b011 the screen procedure is not
    // invoked — a marker cell survives — while the overlay still updates
    // to show 011.
    let mut c = fresh_cursor();
    assert_eq!(c.goto(10, 10), Ok(()));
    assert_eq!(c.putc(b'#'), Ok(()));
    let r = step(&mut c, 0b011, 0b011);
    assert_eq!(r, Ok(0b011));
    assert_eq!(c.grid.cell_at(10, 10).code, b'#');
    assert_eq!(c.grid.cell_at(35, 77).code, b'0');
    assert_eq!(c.grid.cell_at(35, 78).code, b'1');
    assert_eq!(c.grid.cell_at(35, 79).code, b'1');
    let overlay = c.grid.cell_at(35, 77);
    assert_eq!(overlay.foreground, 63);
    assert_eq!(overlay.background, 0b00_00_11);
}

#[test]
fn changed_code_repaints_and_overlays() {
    let mut c = fresh_cursor();
    assert_eq!(c.goto(10, 10), Ok(()));
    assert_eq!(c.putc(b'#'), Ok(()));
    let r = step(&mut c, 0b011, 0b110);
    assert_eq!(r, Ok(0b110));
    // The marker is gone under the full repaint of the thanks screen.
    assert_ne!(c.grid.cell_at(10, 10).code, b'#');
    for (i, code) in b" Thanks for ".iter().enumerate() {
        assert_eq!(c.grid.cell_at(18, 34 + i).code, *code);
    }
    assert_eq!(c.grid.cell_at(35, 77).code, b'1');
    assert_eq!(c.grid.cell_at(35, 78).code, b'1');
    assert_eq!(c.grid.cell_at(35, 79).code, b'0');
}

#[test]
fn raster_decision_splits_text_from_fallback() {
    assert_eq!(raster_op(0), RasterOp::TextLine { line: 0 });
    assert_eq!(raster_op(TEXT_LINES - 1), RasterOp::TextLine { line: TEXT_LINES - 1 });
    assert_eq!(raster_op(TEXT_LINES), RasterOp::SolidFill {
        color: 0,
        repeat_lines: VISIBLE_LINES - TEXT_LINES,
    });
    assert_eq!(raster_op(VISIBLE_LINES - 1), RasterOp::SolidFill { color: 0, repeat_lines: 8 });
}
