//! The screen library: deterministic full-repaint procedures, one per
//! application state. Each resets the pen colors, clears the grid, and lays
//! out a fixed arrangement of title bars, message boxes and buttons; it
//! takes nothing but the cursor and touches nothing but the grid, so two
//! successive paints of the same screen give byte-identical contents.

use vstd::prelude::*;

use crate::cell::AChar;
use crate::cursor::{blank_row, bytes_of, filled, text_at, Cursor, CursorError};

verus! {

/// Brightest color: all three channels full.
pub const WHITE: u8 = 0b11_11_11;

/// All channels off.
pub const BLACK: u8 = 0b00_00_00;

/// Dark gray: every channel at its lowest lit level.
pub const DK_GRAY: u8 = 0b01_01_01;

/// Full red channel.
pub const RED: u8 = 0b00_00_11;

/// Full blue channel.
pub const BLUE: u8 = 0b11_00_00;

/// Medium green, the affirmative button background.
pub const GREEN_MID: u8 = 0b00_10_00;

/// Dim red, the negative button background.
pub const RED_DIM: u8 = 0b00_00_10;

/// Dim green, the closing message background.
pub const GREEN_DIM: u8 = 0b00_01_00;

/// The grid the error screen paints: a red title bar reading ERROR over a
/// blue field.
pub open spec fn error_cells() -> Seq<AChar> {
    let g = filled(WHITE, BLUE);
    let g = blank_row(g, 0, WHITE, RED);
    let g = text_at(
        g,
        1,
        0,
        bytes_of(
            "                                     ERROR                                      "@,
        ),
        WHITE,
        RED,
    );
    let g = blank_row(g, 2, WHITE, RED);
    g
}

/// Paints the error screen, the default state shown for any unmapped
/// condition: white on blue, with a three-row red title bar reading ERROR.
pub fn screen_error(c: &mut Cursor) -> (r: Result<(), CursorError>)
    requires
        old(c).wf(),
    ensures
        final(c).wf(),
        r == Ok::<(), CursorError>(()),
        final(c).grid@ == error_cells(),
        final(c).row == 3,
        final(c).col == 0,
        final(c).foreground == WHITE,
        final(c).background == BLACK,
{
    c.background = BLUE;
    c.foreground = WHITE;
    c.clear();
    c.background = RED;
    c.blank_line(0)?;
    proof {
        reveal_strlit("                                     ERROR                                      ");
    }
    c.put_text(
        1,
        0,
        "                                     ERROR                                      ",
    )?;
    c.blank_line(2)?;
    c.background = BLACK;
    Ok(())
}

/// The grid the start screen paints.
pub open spec fn start_cells() -> Seq<AChar> {
    let g = filled(WHITE, DK_GRAY);
    let g = text_at(g, 16, 35, bytes_of("           "@), WHITE, BLUE);
    let g = text_at(g, 17, 35, bytes_of(" Press any "@), WHITE, BLUE);
    let g = text_at(g, 18, 35, bytes_of("  button   "@), WHITE, BLUE);
    let g = text_at(g, 19, 35, bytes_of(" to start! "@), WHITE, BLUE);
    let g = text_at(g, 20, 35, bytes_of("           "@), WHITE, BLUE);
    g
}

/// Paints the waiting screen inviting a button press.
pub fn screen_start(c: &mut Cursor) -> (r: Result<(), CursorError>)
    requires
        old(c).wf(),
    ensures
        final(c).wf(),
        r == Ok::<(), CursorError>(()),
        final(c).grid@ == start_cells(),
        final(c).row == 20,
        final(c).col == 46,
        final(c).foreground == WHITE,
        final(c).background == BLACK,
{
    c.background = DK_GRAY;
    c.foreground = WHITE;
    c.clear();
    c.background = BLUE;
    proof {
        reveal_strlit("           ");
    }
    c.put_text(16, 35, "           ")?;
    proof {
        reveal_strlit(" Press any ");
    }
    c.put_text(17, 35, " Press any ")?;
    proof {
        reveal_strlit("  button   ");
    }
    c.put_text(18, 35, "  button   ")?;
    proof {
        reveal_strlit(" to start! ");
    }
    c.put_text(19, 35, " to start! ")?;
    proof {
        reveal_strlit("           ");
    }
    c.put_text(20, 35, "           ")?;
    c.background = BLACK;
    Ok(())
}

/// The grid the paying screen paints.
pub open spec fn paying_cells() -> Seq<AChar> {
    let g = filled(WHITE, DK_GRAY);
    let g = blank_row(g, 0, WHITE, BLUE);
    let g = text_at(g, 1, 0, bytes_of("                                    Payment                                     "@), WHITE, BLUE);
    let g = blank_row(g, 2, WHITE, BLUE);
    let g = text_at(g, 17, 35, bytes_of("          "@), WHITE, BLUE);
    let g = text_at(g, 18, 35, bytes_of("  Please  "@), WHITE, BLUE);
    let g = text_at(g, 19, 35, bytes_of(" pay now. "@), WHITE, BLUE);
    let g = text_at(g, 20, 35, bytes_of("          "@), WHITE, BLUE);
    g
}

/// Paints the payment-pending screen.
pub fn screen_paying(c: &mut Cursor) -> (r: Result<(), CursorError>)
    requires
        old(c).wf(),
    ensures
        final(c).wf(),
        r == Ok::<(), CursorError>(()),
        final(c).grid@ == paying_cells(),
        final(c).row == 20,
        final(c).col == 45,
        final(c).foreground == WHITE,
        final(c).background == BLACK,
{
    c.background = DK_GRAY;
    c.foreground = WHITE;
    c.clear();
    c.background = BLUE;
    c.blank_line(0)?;
    proof {
        reveal_strlit("                                    Payment                                     ");
    }
    c.put_text(1, 0, "                                    Payment                                     ")?;
    c.blank_line(2)?;
    proof {
        reveal_strlit("          ");
    }
    c.put_text(17, 35, "          ")?;
    proof {
        reveal_strlit("  Please  ");
    }
    c.put_text(18, 35, "  Please  ")?;
    proof {
        reveal_strlit(" pay now. ");
    }
    c.put_text(19, 35, " pay now. ")?;
    proof {
        reveal_strlit("          ");
    }
    c.put_text(20, 35, "          ")?;
    c.background = BLACK;
    Ok(())
}

/// The grid the confirm screen paints.
pub open spec fn confirm_cells() -> Seq<AChar> {
    let g = filled(WHITE, DK_GRAY);
    let g = blank_row(g, 0, WHITE, BLUE);
    let g = text_at(g, 1, 0, bytes_of("                                  Confirmation                                  "@), WHITE, BLUE);
    let g = blank_row(g, 2, WHITE, BLUE);
    let g = text_at(g, 17, 35, bytes_of("           "@), WHITE, BLUE);
    let g = text_at(g, 18, 35, bytes_of("  Do you   "@), WHITE, BLUE);
    let g = text_at(g, 19, 35, bytes_of("  want to  "@), WHITE, BLUE);
    let g = text_at(g, 20, 35, bytes_of(" continue? "@), WHITE, BLUE);
    let g = text_at(g, 21, 35, bytes_of("           "@), WHITE, BLUE);
    let g = text_at(g, 11, 0, bytes_of("     "@), WHITE, GREEN_MID);
    let g = text_at(g, 12, 0, bytes_of(" YES "@), WHITE, GREEN_MID);
    let g = text_at(g, 13, 0, bytes_of("     "@), WHITE, GREEN_MID);
    let g = text_at(g, 24, 0, bytes_of("     "@), WHITE, RED_DIM);
    let g = text_at(g, 25, 0, bytes_of(" NO  "@), WHITE, RED_DIM);
    let g = text_at(g, 26, 0, bytes_of("     "@), WHITE, RED_DIM);
    g
}

/// Paints the confirmation screen with its two selectable options.
pub fn screen_confirm(c: &mut Cursor) -> (r: Result<(), CursorError>)
    requires
        old(c).wf(),
    ensures
        final(c).wf(),
        r == Ok::<(), CursorError>(()),
        final(c).grid@ == confirm_cells(),
        final(c).row == 26,
        final(c).col == 5,
        final(c).foreground == WHITE,
        final(c).background == BLACK,
{
    c.background = DK_GRAY;
    c.foreground = WHITE;
    c.clear();
    c.background = BLUE;
    c.blank_line(0)?;
    proof {
        reveal_strlit("                                  Confirmation                                  ");
    }
    c.put_text(1, 0, "                                  Confirmation                                  ")?;
    c.blank_line(2)?;
    proof {
        reveal_strlit("           ");
    }
    c.put_text(17, 35, "           ")?;
    proof {
        reveal_strlit("  Do you   ");
    }
    c.put_text(18, 35, "  Do you   ")?;
    proof {
        reveal_strlit("  want to  ");
    }
    c.put_text(19, 35, "  want to  ")?;
    proof {
        reveal_strlit(" continue? ");
    }
    c.put_text(20, 35, " continue? ")?;
    proof {
        reveal_strlit("           ");
    }
    c.put_text(21, 35, "           ")?;
    c.background = GREEN_MID;
    proof {
        reveal_strlit("     ");
    }
    c.put_text(11, 0, "     ")?;
    proof {
        reveal_strlit(" YES ");
    }
    c.put_text(12, 0, " YES ")?;
    proof {
        reveal_strlit("     ");
    }
    c.put_text(13, 0, "     ")?;
    c.background = RED_DIM;
    proof {
        reveal_strlit("     ");
    }
    c.put_text(24, 0, "     ")?;
    proof {
        reveal_strlit(" NO  ");
    }
    c.put_text(25, 0, " NO  ")?;
    proof {
        reveal_strlit("     ");
    }
    c.put_text(26, 0, "     ")?;
    c.background = BLACK;
    Ok(())
}

/// The grid the line1 screen paints.
pub open spec fn line1_cells() -> Seq<AChar> {
    let g = filled(WHITE, DK_GRAY);
    let g = blank_row(g, 0, WHITE, BLUE);
    let g = text_at(g, 1, 0, bytes_of("                                     Line 1                                     "@), WHITE, BLUE);
    let g = blank_row(g, 2, WHITE, BLUE);
    let g = text_at(g, 16, 35, bytes_of("           "@), WHITE, BLUE);
    let g = text_at(g, 17, 35, bytes_of(" Choose a  "@), WHITE, BLUE);
    let g = text_at(g, 18, 35, bytes_of(" ticket to "@), WHITE, BLUE);
    let g = text_at(g, 19, 35, bytes_of(" purchase  "@), WHITE, BLUE);
    let g = text_at(g, 20, 35, bytes_of("           "@), WHITE, BLUE);
    let g = text_at(g, 10, 0, bytes_of("      "@), WHITE, BLUE);
    let g = text_at(g, 11, 0, bytes_of("   A  "@), WHITE, BLUE);
    let g = text_at(g, 12, 0, bytes_of("      "@), WHITE, BLUE);
    let g = text_at(g, 10, 74, bytes_of("      "@), WHITE, BLUE);
    let g = text_at(g, 11, 74, bytes_of("  B   "@), WHITE, BLUE);
    let g = text_at(g, 12, 74, bytes_of("      "@), WHITE, BLUE);
    let g = text_at(g, 25, 0, bytes_of("      "@), WHITE, BLUE);
    let g = text_at(g, 26, 0, bytes_of(" QUIT "@), WHITE, BLUE);
    let g = text_at(g, 27, 0, bytes_of("      "@), WHITE, BLUE);
    let g = text_at(g, 25, 74, bytes_of("      "@), WHITE, BLUE);
    let g = text_at(g, 26, 74, bytes_of(" NEXT "@), WHITE, BLUE);
    let g = text_at(g, 27, 74, bytes_of("      "@), WHITE, BLUE);
    g
}

/// Paints the first ticket-selection page.
pub fn screen_line1(c: &mut Cursor) -> (r: Result<(), CursorError>)
    requires
        old(c).wf(),
    ensures
        final(c).wf(),
        r == Ok::<(), CursorError>(()),
        final(c).grid@ == line1_cells(),
        final(c).row == 28,
        final(c).col == 0,
        final(c).foreground == WHITE,
        final(c).background == BLUE,
{
    c.background = DK_GRAY;
    c.foreground = WHITE;
    c.clear();
    c.background = BLUE;
    c.blank_line(0)?;
    proof {
        reveal_strlit("                                     Line 1                                     ");
    }
    c.put_text(1, 0, "                                     Line 1                                     ")?;
    c.blank_line(2)?;
    proof {
        reveal_strlit("           ");
    }
    c.put_text(16, 35, "           ")?;
    proof {
        reveal_strlit(" Choose a  ");
    }
    c.put_text(17, 35, " Choose a  ")?;
    proof {
        reveal_strlit(" ticket to ");
    }
    c.put_text(18, 35, " ticket to ")?;
    proof {
        reveal_strlit(" purchase  ");
    }
    c.put_text(19, 35, " purchase  ")?;
    proof {
        reveal_strlit("           ");
    }
    c.put_text(20, 35, "           ")?;
    proof {
        reveal_strlit("      ");
    }
    c.put_text(10, 0, "      ")?;
    proof {
        reveal_strlit("   A  ");
    }
    c.put_text(11, 0, "   A  ")?;
    proof {
        reveal_strlit("      ");
    }
    c.put_text(12, 0, "      ")?;
    proof {
        reveal_strlit("      ");
    }
    c.put_text(10, 74, "      ")?;
    proof {
        reveal_strlit("  B   ");
    }
    c.put_text(11, 74, "  B   ")?;
    proof {
        reveal_strlit("      ");
    }
    c.put_text(12, 74, "      ")?;
    proof {
        reveal_strlit("      ");
    }
    c.put_text(25, 0, "      ")?;
    proof {
        reveal_strlit(" QUIT ");
    }
    c.put_text(26, 0, " QUIT ")?;
    proof {
        reveal_strlit("      ");
    }
    c.put_text(27, 0, "      ")?;
    proof {
        reveal_strlit("      ");
    }
    c.put_text(25, 74, "      ")?;
    proof {
        reveal_strlit(" NEXT ");
    }
    c.put_text(26, 74, " NEXT ")?;
    proof {
        reveal_strlit("      ");
    }
    c.put_text(27, 74, "      ")?;
    Ok(())
}

/// The grid the line2 screen paints.
pub open spec fn line2_cells() -> Seq<AChar> {
    let g = filled(WHITE, DK_GRAY);
    let g = blank_row(g, 0, WHITE, BLUE);
    let g = text_at(g, 1, 0, bytes_of("                                     Line 2                                     "@), WHITE, BLUE);
    let g = blank_row(g, 2, WHITE, BLUE);
    let g = text_at(g, 16, 35, bytes_of("           "@), WHITE, BLUE);
    let g = text_at(g, 17, 35, bytes_of(" Choose a  "@), WHITE, BLUE);
    let g = text_at(g, 18, 35, bytes_of(" ticket to "@), WHITE, BLUE);
    let g = text_at(g, 19, 35, bytes_of(" purchase  "@), WHITE, BLUE);
    let g = text_at(g, 20, 35, bytes_of("           "@), WHITE, BLUE);
    let g = text_at(g, 10, 0, bytes_of("      "@), WHITE, BLUE);
    let g = text_at(g, 11, 0, bytes_of("   C  "@), WHITE, BLUE);
    let g = text_at(g, 12, 0, bytes_of("      "@), WHITE, BLUE);
    let g = text_at(g, 10, 74, bytes_of("      "@), WHITE, BLUE);
    let g = text_at(g, 11, 74, bytes_of("  D   "@), WHITE, BLUE);
    let g = text_at(g, 12, 74, bytes_of("      "@), WHITE, BLUE);
    let g = text_at(g, 25, 0, bytes_of("      "@), WHITE, BLUE);
    let g = text_at(g, 26, 0, bytes_of(" PREV "@), WHITE, BLUE);
    let g = text_at(g, 27, 0, bytes_of("      "@), WHITE, BLUE);
    let g = text_at(g, 25, 74, bytes_of("      "@), WHITE, BLUE);
    let g = text_at(g, 26, 74, bytes_of(" NEXT "@), WHITE, BLUE);
    let g = text_at(g, 27, 74, bytes_of("      "@), WHITE, BLUE);
    g
}

/// Paints the second ticket-selection page.
pub fn screen_line2(c: &mut Cursor) -> (r: Result<(), CursorError>)
    requires
        old(c).wf(),
    ensures
        final(c).wf(),
        r == Ok::<(), CursorError>(()),
        final(c).grid@ == line2_cells(),
        final(c).row == 28,
        final(c).col == 0,
        final(c).foreground == WHITE,
        final(c).background == BLUE,
{
    c.background = DK_GRAY;
    c.foreground = WHITE;
    c.clear();
    c.background = BLUE;
    c.blank_line(0)?;
    proof {
        reveal_strlit("                                     Line 2                                     ");
    }
    c.put_text(1, 0, "                                     Line 2                                     ")?;
    c.blank_line(2)?;
    proof {
        reveal_strlit("           ");
    }
    c.put_text(16, 35, "           ")?;
    proof {
        reveal_strlit(" Choose a  ");
    }
    c.put_text(17, 35, " Choose a  ")?;
    proof {
        reveal_strlit(" ticket to ");
    }
    c.put_text(18, 35, " ticket to ")?;
    proof {
        reveal_strlit(" purchase  ");
    }
    c.put_text(19, 35, " purchase  ")?;
    proof {
        reveal_strlit("           ");
    }
    c.put_text(20, 35, "           ")?;
    proof {
        reveal_strlit("      ");
    }
    c.put_text(10, 0, "      ")?;
    proof {
        reveal_strlit("   C  ");
    }
    c.put_text(11, 0, "   C  ")?;
    proof {
        reveal_strlit("      ");
    }
    c.put_text(12, 0, "      ")?;
    proof {
        reveal_strlit("      ");
    }
    c.put_text(10, 74, "      ")?;
    proof {
        reveal_strlit("  D   ");
    }
    c.put_text(11, 74, "  D   ")?;
    proof {
        reveal_strlit("      ");
    }
    c.put_text(12, 74, "      ")?;
    proof {
        reveal_strlit("      ");
    }
    c.put_text(25, 0, "      ")?;
    proof {
        reveal_strlit(" PREV ");
    }
    c.put_text(26, 0, " PREV ")?;
    proof {
        reveal_strlit("      ");
    }
    c.put_text(27, 0, "      ")?;
    proof {
        reveal_strlit("      ");
    }
    c.put_text(25, 74, "      ")?;
    proof {
        reveal_strlit(" NEXT ");
    }
    c.put_text(26, 74, " NEXT ")?;
    proof {
        reveal_strlit("      ");
    }
    c.put_text(27, 74, "      ")?;
    Ok(())
}

/// The grid the line3 screen paints.
pub open spec fn line3_cells() -> Seq<AChar> {
    let g = filled(WHITE, DK_GRAY);
    let g = blank_row(g, 0, WHITE, BLUE);
    let g = text_at(g, 1, 0, bytes_of("                                     Line 3                                     "@), WHITE, BLUE);
    let g = blank_row(g, 2, WHITE, BLUE);
    let g = text_at(g, 16, 35, bytes_of("           "@), WHITE, BLUE);
    let g = text_at(g, 17, 35, bytes_of(" Choose a  "@), WHITE, BLUE);
    let g = text_at(g, 18, 35, bytes_of(" ticket to "@), WHITE, BLUE);
    let g = text_at(g, 19, 35, bytes_of(" purchase  "@), WHITE, BLUE);
    let g = text_at(g, 20, 35, bytes_of("           "@), WHITE, BLUE);
    let g = text_at(g, 10, 0, bytes_of("      "@), WHITE, BLUE);
    let g = text_at(g, 11, 0, bytes_of("   E  "@), WHITE, BLUE);
    let g = text_at(g, 12, 0, bytes_of("      "@), WHITE, BLUE);
    let g = text_at(g, 10, 74, bytes_of("      "@), WHITE, BLUE);
    let g = text_at(g, 11, 74, bytes_of("  F   "@), WHITE, BLUE);
    let g = text_at(g, 12, 74, bytes_of("      "@), WHITE, BLUE);
    let g = text_at(g, 25, 0, bytes_of("      "@), WHITE, BLUE);
    let g = text_at(g, 26, 0, bytes_of(" PREV "@), WHITE, BLUE);
    let g = text_at(g, 27, 0, bytes_of("      "@), WHITE, BLUE);
    let g = text_at(g, 25, 74, bytes_of("      "@), WHITE, BLUE);
    let g = text_at(g, 26, 74, bytes_of(" QUIT "@), WHITE, BLUE);
    let g = text_at(g, 27, 74, bytes_of("      "@), WHITE, BLUE);
    g
}

/// Paints the third ticket-selection page, kept although no input code reaches it.
pub fn screen_line3(c: &mut Cursor) -> (r: Result<(), CursorError>)
    requires
        old(c).wf(),
    ensures
        final(c).wf(),
        r == Ok::<(), CursorError>(()),
        final(c).grid@ == line3_cells(),
        final(c).row == 28,
        final(c).col == 0,
        final(c).foreground == WHITE,
        final(c).background == BLUE,
{
    c.background = DK_GRAY;
    c.foreground = WHITE;
    c.clear();
    c.background = BLUE;
    c.blank_line(0)?;
    proof {
        reveal_strlit("                                     Line 3                                     ");
    }
    c.put_text(1, 0, "                                     Line 3                                     ")?;
    c.blank_line(2)?;
    proof {
        reveal_strlit("           ");
    }
    c.put_text(16, 35, "           ")?;
    proof {
        reveal_strlit(" Choose a  ");
    }
    c.put_text(17, 35, " Choose a  ")?;
    proof {
        reveal_strlit(" ticket to ");
    }
    c.put_text(18, 35, " ticket to ")?;
    proof {
        reveal_strlit(" purchase  ");
    }
    c.put_text(19, 35, " purchase  ")?;
    proof {
        reveal_strlit("           ");
    }
    c.put_text(20, 35, "           ")?;
    proof {
        reveal_strlit("      ");
    }
    c.put_text(10, 0, "      ")?;
    proof {
        reveal_strlit("   E  ");
    }
    c.put_text(11, 0, "   E  ")?;
    proof {
        reveal_strlit("      ");
    }
    c.put_text(12, 0, "      ")?;
    proof {
        reveal_strlit("      ");
    }
    c.put_text(10, 74, "      ")?;
    proof {
        reveal_strlit("  F   ");
    }
    c.put_text(11, 74, "  F   ")?;
    proof {
        reveal_strlit("      ");
    }
    c.put_text(12, 74, "      ")?;
    proof {
        reveal_strlit("      ");
    }
    c.put_text(25, 0, "      ")?;
    proof {
        reveal_strlit(" PREV ");
    }
    c.put_text(26, 0, " PREV ")?;
    proof {
        reveal_strlit("      ");
    }
    c.put_text(27, 0, "      ")?;
    proof {
        reveal_strlit("      ");
    }
    c.put_text(25, 74, "      ")?;
    proof {
        reveal_strlit(" QUIT ");
    }
    c.put_text(26, 74, " QUIT ")?;
    proof {
        reveal_strlit("      ");
    }
    c.put_text(27, 74, "      ")?;
    Ok(())
}

/// The grid the thanks screen paints.
pub open spec fn thanks_cells() -> Seq<AChar> {
    let g = filled(WHITE, DK_GRAY);
    let g = blank_row(g, 0, WHITE, BLUE);
    let g = text_at(g, 1, 0, bytes_of("                                    Thank You                                   "@), WHITE, BLUE);
    let g = blank_row(g, 2, WHITE, BLUE);
    let g = text_at(g, 17, 34, bytes_of("            "@), BLACK, GREEN_DIM);
    let g = text_at(g, 18, 34, bytes_of(" Thanks for "@), BLACK, GREEN_DIM);
    let g = text_at(g, 19, 34, bytes_of(" travelling "@), BLACK, GREEN_DIM);
    let g = text_at(g, 20, 34, bytes_of("  with us!  "@), BLACK, GREEN_DIM);
    let g = text_at(g, 21, 34, bytes_of("            "@), BLACK, GREEN_DIM);
    g
}

/// Paints the completion screen.
pub fn screen_thanks(c: &mut Cursor) -> (r: Result<(), CursorError>)
    requires
        old(c).wf(),
    ensures
        final(c).wf(),
        r == Ok::<(), CursorError>(()),
        final(c).grid@ == thanks_cells(),
        final(c).row == 21,
        final(c).col == 46,
        final(c).foreground == BLACK,
        final(c).background == GREEN_DIM,
{
    c.background = DK_GRAY;
    c.foreground = WHITE;
    c.clear();
    c.background = BLUE;
    c.blank_line(0)?;
    proof {
        reveal_strlit("                                    Thank You                                   ");
    }
    c.put_text(1, 0, "                                    Thank You                                   ")?;
    c.blank_line(2)?;
    c.background = GREEN_DIM;
    c.foreground = BLACK;
    proof {
        reveal_strlit("            ");
    }
    c.put_text(17, 34, "            ")?;
    proof {
        reveal_strlit(" Thanks for ");
    }
    c.put_text(18, 34, " Thanks for ")?;
    proof {
        reveal_strlit(" travelling ");
    }
    c.put_text(19, 34, " travelling ")?;
    proof {
        reveal_strlit("  with us!  ");
    }
    c.put_text(20, 34, "  with us!  ")?;
    proof {
        reveal_strlit("            ");
    }
    c.put_text(21, 34, "            ")?;
    Ok(())
}

} // verus!
