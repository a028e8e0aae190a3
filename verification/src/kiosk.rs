//! The input-driven screen-selection state machine: combining the hardware
//! input lines into a code, dispatching a changed code to its screen,
//! drawing the diagnostic readout, and deciding what the scan-out path does
//! with each visible line.

use vstd::prelude::*;

use crate::cell::AChar;
use crate::cursor::{text_at, Cursor, CursorError};
use crate::screens::{
    confirm_cells, error_cells, line1_cells, line2_cells, line3_cells, paying_cells, screen_confirm,
    screen_error, screen_line1, screen_line2, screen_line3, screen_paying, screen_start,
    screen_thanks, start_cells, thanks_cells, BLACK, RED, WHITE,
};

verus! {

/// One application state, as selected by the sampled input code.
#[derive(Clone, Copy, Debug, PartialEq, Eq, Structural)]
pub enum Screen {
    Error,
    Start,
    Paying,
    Confirm,
    Line1,
    Line2,
    Line3,
    Thanks,
}

/// The fixed dispatch table from a sampled input code to the screen it
/// selects. The table is total: six codes name their screens, and the idle
/// code and every unmapped value fall back to the error screen. No code
/// reaches `Line3`: the third ticket-selection page is present but
/// deliberately disabled.
pub open spec fn spec_screen_for_code(code: u8) -> Screen {
    if code == 1 {
        Screen::Start
    } else if code == 2 {
        Screen::Paying
    } else if code == 3 {
        Screen::Confirm
    } else if code == 4 {
        Screen::Line1
    } else if code == 5 {
        Screen::Line2
    } else if code == 6 {
        Screen::Thanks
    } else {
        Screen::Error
    }
}

/// Looks the sampled code up in the dispatch table.
pub fn screen_for_code(code: u8) -> (r: Screen)
    ensures
        r == spec_screen_for_code(code),
{
    match code {
        1 => Screen::Start,
        2 => Screen::Paying,
        3 => Screen::Confirm,
        4 => Screen::Line1,
        5 => Screen::Line2,
        6 => Screen::Thanks,
        _ => Screen::Error,
    }
}

/// An unmapped input code selects the very screen the idle code selects:
/// every code outside the mapped range falls back to the error screen.
pub proof fn lemma_unmapped_code_falls_back(code: u8)
    requires
        code == 0 || code > 6,
    ensures
        spec_screen_for_code(code) == Screen::Error,
        spec_screen_for_code(code) == spec_screen_for_code(0),
{
}

/// The cells each screen's repaint leaves in the grid.
pub open spec fn spec_screen_cells(s: Screen) -> Seq<AChar> {
    match s {
        Screen::Error => error_cells(),
        Screen::Start => start_cells(),
        Screen::Paying => paying_cells(),
        Screen::Confirm => confirm_cells(),
        Screen::Line1 => line1_cells(),
        Screen::Line2 => line2_cells(),
        Screen::Line3 => line3_cells(),
        Screen::Thanks => thanks_cells(),
    }
}

/// Repaints the given screen in full.
pub fn paint(screen: Screen, c: &mut Cursor) -> (r: Result<(), CursorError>)
    requires
        old(c).wf(),
    ensures
        final(c).wf(),
        r == Ok::<(), CursorError>(()),
        final(c).grid@ == spec_screen_cells(screen),
{
    match screen {
        Screen::Error => screen_error(c),
        Screen::Start => screen_start(c),
        Screen::Paying => screen_paying(c),
        Screen::Confirm => screen_confirm(c),
        Screen::Line1 => screen_line1(c),
        Screen::Line2 => screen_line2(c),
        Screen::Line3 => screen_line3(c),
        Screen::Thanks => screen_thanks(c),
    }
}

/// Painting the same screen twice in succession leaves the grid exactly as
/// one painting does: a repaint depends on nothing but the screen's
/// identity, so the two results are byte-identical.
pub proof fn lemma_repaint_idempotent(s: Screen, g1: Seq<AChar>, g2: Seq<AChar>)
    requires
        g1 == spec_screen_cells(s),
        g2 == spec_screen_cells(s),
    ensures
        g1 == g2,
{
}

/// Combines the three hardware input lines into one code: line A is bit 0,
/// line B is bit 1, line C is bit 2.
pub fn input_code(line_a: bool, line_b: bool, line_c: bool) -> (r: u8)
    ensures
        r == (if line_a {
            1int
        } else {
            0int
        }) + (if line_b {
            2int
        } else {
            0int
        }) + (if line_c {
            4int
        } else {
            0int
        }),
        r < 8,
{
    (if line_a {
        1u8
    } else {
        0u8
    }) + (if line_b {
        2u8
    } else {
        0u8
    }) + (if line_c {
        4u8
    } else {
        0u8
    })
}

/// The three binary digit characters of a three-bit code, most significant
/// first.
pub open spec fn code_digits(code: u8) -> Seq<u8> {
    seq![
        (48 + (code / 4) % 2) as u8,
        (48 + (code / 2) % 2) as u8,
        (48 + code % 2) as u8,
    ]
}

/// The grid with the diagnostic readout painted over it: the input code in
/// fixed-width binary, white on red, in the bottom-right corner of the
/// next-to-last row.
pub open spec fn overlay_cells(g: Seq<AChar>, code: u8) -> Seq<AChar> {
    text_at(g, 35, 77, code_digits(code), WHITE, RED)
}

/// Draws the diagnostic readout for the sampled code.
pub fn paint_overlay(c: &mut Cursor, code: u8) -> (r: Result<(), CursorError>)
    requires
        old(c).wf(),
        code < 8,
    ensures
        final(c).wf(),
        r == Ok::<(), CursorError>(()),
        final(c).grid@ == overlay_cells(old(c).grid@, code),
        final(c).row == 36,
        final(c).col == 0,
        final(c).foreground == WHITE,
        final(c).background == RED,
{
    c.background = RED;
    c.foreground = WHITE;
    c.goto(35, 77)?;
    let ghost g0 = c.grid@;
    let d0: u8 = 48 + (code / 4) % 2;
    let d1: u8 = 48 + (code / 2) % 2;
    let d2: u8 = 48 + code % 2;
    c.putc(d0)?;
    c.putc(d1)?;
    c.putc(d2)?;
    proof {
        assert(c.grid@ =~= overlay_cells(g0, code));
    }
    Ok(())
}

/// One application-loop iteration over the display, after the caller has
/// synchronized with vertical blank, acquired the grid and sampled the
/// input lines: a changed code repaints its screen in full, an unchanged
/// one repaints nothing, and the diagnostic readout is drawn fresh either
/// way. Returns the code to carry into the next iteration as the previous
/// one.
pub fn step(c: &mut Cursor, previous_code: u8, current_code: u8) -> (r: Result<u8, CursorError>)
    requires
        old(c).wf(),
        current_code < 8,
    ensures
        final(c).wf(),
        r == Ok::<u8, CursorError>(current_code),
        final(c).grid@ == spec_step_cells(old(c).grid@, previous_code, current_code),
        final(c).row == 36,
        final(c).col == 0,
        final(c).foreground == WHITE,
        final(c).background == RED,
{
    if previous_code != current_code {
        paint(screen_for_code(current_code), c)?;
    }
    paint_overlay(c, current_code)?;
    Ok(current_code)
}

/// The cells after one loop iteration: the matching screen's full repaint
/// when the code changed, the grid untouched when it did not, and the
/// diagnostic readout over either result.
pub open spec fn spec_step_cells(g: Seq<AChar>, previous_code: u8, current_code: u8) -> Seq<
    AChar,
> {
    overlay_cells(
        if previous_code != current_code {
            spec_screen_cells(spec_screen_for_code(current_code))
        } else {
            g
        },
        current_code,
    )
}

/// Total number of visible display lines in a frame.
pub const VISIBLE_LINES: usize = 600;

/// Visible lines covered by the character grid: its rows of 16-line glyphs.
pub const TEXT_LINES: usize = 592;

/// What the render path is told to do for one visible line.
#[derive(Clone, Copy, Debug, PartialEq, Eq, Structural)]
pub enum RasterOp {
    /// Rasterize this line from the character grid.
    TextLine { line: usize },
    /// Fill the line with one solid color and skip the per-line callback
    /// for the given number of following lines.
    SolidFill { color: u8, repeat_lines: usize },
}

/// The scan-out decision for one visible line: lines the character grid
/// covers are rasterized from it; the partial row below the grid is blacked
/// out once and the rest of the frame's lines are skipped.
pub fn raster_op(line: usize) -> (r: RasterOp)
    requires
        line < VISIBLE_LINES,
    ensures
        line < TEXT_LINES ==> r == (RasterOp::TextLine { line }),
        line >= TEXT_LINES ==> r == (RasterOp::SolidFill {
            color: BLACK,
            repeat_lines: (VISIBLE_LINES - TEXT_LINES) as usize,
        }),
{
    if line < TEXT_LINES {
        RasterOp::TextLine { line }
    } else {
        RasterOp::SolidFill { color: BLACK, repeat_lines: VISIBLE_LINES - TEXT_LINES }
    }
}

} // verus!
