//! The terminal-style cursor: a write head over the grid that owns the
//! current position and the active pen colors.

use vstd::prelude::*;

use crate::cell::AChar;
use crate::grid::{Grid, COLS, GRID_CELLS, ROWS};

verus! {

/// The byte that ends a line: writing it pads the rest of the current row
/// with blanks and moves the cursor to the start of the next row.
pub const LINE_BREAK: u8 = 10;

/// Character code of the blank written by line-break padding and by
/// [`Cursor::clear`]: an ordinary space.
pub const SPACE: u8 = 32;

/// Errors a cursor operation can report.
#[derive(Clone, Copy, Debug, PartialEq, Eq, Structural)]
pub enum CursorError {
    /// A write was attempted with the cursor already past the last row.
    PastEnd,
    /// A reposition named a row or column outside the grid.
    BadPosition,
}

/// The mathematical state of a cursor: the grid contents plus position and
/// pen colors. Every cursor operation is specified as a function on pens.
#[verifier::ext_equal]
pub ghost struct Pen {
    pub cells: Seq<AChar>,
    pub row: int,
    pub col: int,
    pub foreground: u8,
    pub background: u8,
}

impl Pen {
    /// The grid has its fixed size and the position is in range; the row may
    /// rest one past the last row, where any further write is refused.
    pub open spec fn wf(self) -> bool {
        &&& self.cells.len() == GRID_CELLS
        &&& 0 <= self.col < COLS
        &&& 0 <= self.row <= ROWS
    }

    /// The flat index the next character would be written to.
    pub open spec fn pos(self) -> int {
        self.row * COLS + self.col
    }
}

/// The blank cell written by padding and clearing under pen colors
/// `fg` and `bg`.
pub open spec fn space_cell(fg: u8, bg: u8) -> AChar {
    AChar::attributed(SPACE, fg, bg)
}

/// One past the last index padded by a line break: the end of the current
/// row, wherever on the row the cursor stands.
pub open spec fn line_break_end(p: Pen) -> int {
    (p.row + 1) * COLS
}

/// Effect of writing the line-break byte: the rest of the current row is
/// padded with blanks in the current colors and the cursor moves to the
/// start of the next row.
pub open spec fn break_line(p: Pen) -> Pen {
    Pen {
        cells: Seq::new(
            p.cells.len(),
            |i: int|
                if p.pos() <= i < line_break_end(p) {
                    space_cell(p.foreground, p.background)
                } else {
                    p.cells[i]
                },
        ),
        row: p.row + 1,
        col: 0,
        foreground: p.foreground,
        background: p.background,
    }
}

/// Effect of writing an ordinary character: one attributed cell at the
/// cursor's position, then the column advances, wrapping to the start of
/// the next row past the last column.
pub open spec fn write_cell(p: Pen, c: u8) -> Pen {
    let cells = p.cells.update(p.pos(), AChar::attributed(c, p.foreground, p.background));
    if p.col + 1 == COLS {
        Pen { cells, row: p.row + 1, col: 0, foreground: p.foreground, background: p.background }
    } else {
        Pen { cells, row: p.row, col: p.col + 1, foreground: p.foreground, background: p.background }
    }
}

/// Effect of one `putc` call: a line break or an ordinary write when the
/// cursor is still on the grid, and no change at all once it is past the
/// last row.
pub open spec fn putc_pen(p: Pen, c: u8) -> Pen {
    if p.row >= ROWS {
        p
    } else if c == LINE_BREAK {
        break_line(p)
    } else {
        write_cell(p, c)
    }
}

/// The byte a character is written as: any code point outside the 8-bit
/// range is truncated to its low 8 bits, an accepted lossy convention for
/// this display.
pub open spec fn byte_of(c: char) -> u8 {
    ((c as int) % 256) as u8
}

/// The bytes a string is written as, character by character.
pub open spec fn bytes_of(s: Seq<char>) -> Seq<u8> {
    s.map_values(|c: char| byte_of(c))
}

/// Effect of writing a byte sequence left to right, one `putc` at a time.
pub open spec fn puts_pen(p: Pen, s: Seq<u8>) -> Pen
    decreases s.len(),
{
    if s.len() == 0 {
        p
    } else {
        puts_pen(putc_pen(p, s[0]), s.drop_first())
    }
}

/// Whether every byte of the sequence is written while the cursor is still
/// on the grid, so that none of the writes is refused.
pub open spec fn puts_fits(p: Pen, s: Seq<u8>) -> bool
    decreases s.len(),
{
    s.len() == 0 || (p.row < ROWS && puts_fits(putc_pen(p, s[0]), s.drop_first()))
}

/// A grid holding nothing but blanks in the colors `fg` and `bg`.
pub open spec fn filled(fg: u8, bg: u8) -> Seq<AChar> {
    Seq::new(GRID_CELLS as nat, |i: int| space_cell(fg, bg))
}

/// The truncated byte one character is written as.
fn char_code(c: char) -> (r: u8)
    ensures
        r == byte_of(c),
{
    let n = c as u32;
    proof {
        assert(n as u8 == n % 256) by (bit_vector);
    }
    #[verifier::truncate] (n as u8)
}

/// A cursor past the last row refuses every write: a byte sequence leaves
/// it unchanged, and only the empty sequence fits.
pub proof fn lemma_puts_pen_stuck(p: Pen, s: Seq<u8>)
    requires
        p.row >= ROWS,
    ensures
        puts_pen(p, s) == p,
        puts_fits(p, s) == (s.len() == 0),
    decreases s.len(),
{
    if s.len() > 0 {
        lemma_puts_pen_stuck(p, s.drop_first());
    }
}

/// Writing `s` and then one more byte is writing `s.push(c)`.
pub proof fn lemma_puts_pen_snoc(p: Pen, s: Seq<u8>, c: u8)
    ensures
        puts_pen(p, s.push(c)) == putc_pen(puts_pen(p, s), c),
        puts_fits(p, s.push(c)) == (puts_fits(p, s) && puts_pen(p, s).row < ROWS),
    decreases s.len(),
{
    if s.len() == 0 {
        assert(s.push(c).drop_first() =~= Seq::<u8>::empty());
        assert(s.push(c)[0] == c);
        assert(puts_pen(p, s.push(c)) == puts_pen(putc_pen(p, c), s.push(c).drop_first()));
        assert(puts_pen(putc_pen(p, c), s.push(c).drop_first()) == putc_pen(p, c));
        assert(puts_pen(p, s) == p);
        assert(puts_fits(putc_pen(p, c), s.push(c).drop_first()));
        assert(puts_fits(p, s));
    } else {
        assert(s.push(c)[0] == s[0]);
        assert(s.push(c).drop_first() =~= s.drop_first().push(c));
        lemma_puts_pen_snoc(putc_pen(p, s[0]), s.drop_first(), c);
        assert(puts_pen(p, s.push(c)) == puts_pen(
            putc_pen(p, s[0]),
            s.drop_first().push(c),
        ));
        assert(puts_pen(p, s) == puts_pen(putc_pen(p, s[0]), s.drop_first()));
        assert(puts_fits(p, s) == (p.row < ROWS && puts_fits(putc_pen(p, s[0]), s.drop_first())));
        assert(puts_fits(p, s.push(c)) == (p.row < ROWS && puts_fits(
            putc_pen(p, s[0]),
            s.drop_first().push(c),
        )));
    }
}

/// Writing `s` is writing its first `i` bytes and then the rest.
pub proof fn lemma_puts_pen_split(p: Pen, s: Seq<u8>, i: int)
    requires
        0 <= i <= s.len(),
    ensures
        puts_pen(p, s) == puts_pen(puts_pen(p, s.take(i)), s.skip(i)),
        puts_fits(p, s) == (puts_fits(p, s.take(i)) && puts_fits(puts_pen(p, s.take(i)), s.skip(i))),
    decreases i,
{
    if i == 0 {
        assert(s.take(0) =~= Seq::<u8>::empty());
        assert(s.skip(0) =~= s);
    } else {
        let q = putc_pen(p, s[0]);
        lemma_puts_pen_split(q, s.drop_first(), i - 1);
        assert(s.take(i)[0] == s[0]);
        assert(s.take(i).drop_first() =~= s.drop_first().take(i - 1));
        assert(s.skip(i) =~= s.drop_first().skip(i - 1));
    }
}

/// `g` with the bytes of `s` written as attributed cells in the colors
/// `fg`/`bg`, starting at `(row, col)` and running right along the row.
pub open spec fn text_at(g: Seq<AChar>, row: int, col: int, s: Seq<u8>, fg: u8, bg: u8) -> Seq<
    AChar,
> {
    Seq::new(
        g.len(),
        |i: int|
            if row * COLS + col <= i < row * COLS + col + s.len() {
                AChar::attributed(s[i - (row * COLS + col)], fg, bg)
            } else {
                g[i]
            },
    )
}

/// `g` with every cell of row `row` replaced by a blank in the colors
/// `fg`/`bg`.
pub open spec fn blank_row(g: Seq<AChar>, row: int, fg: u8, bg: u8) -> Seq<AChar> {
    Seq::new(
        g.len(),
        |i: int|
            if row * COLS <= i < (row + 1) * COLS {
                space_cell(fg, bg)
            } else {
                g[i]
            },
    )
}

/// A break-free byte sequence that fits on the cursor's row is written in
/// full, cell by cell from the cursor's position, and the cursor ends just
/// past it, wrapped to the next row when it filled the row exactly.
pub proof fn lemma_puts_plain(p: Pen, s: Seq<u8>)
    requires
        p.wf(),
        p.row < ROWS,
        p.col + s.len() <= COLS,
        forall|i: int| 0 <= i < s.len() ==> s[i] != LINE_BREAK,
    ensures
        puts_fits(p, s),
        puts_pen(p, s).cells == text_at(p.cells, p.row, p.col, s, p.foreground, p.background),
        puts_pen(p, s).foreground == p.foreground,
        puts_pen(p, s).background == p.background,
        s.len() == 0 ==> puts_pen(p, s) == p,
        s.len() > 0 && p.col + s.len() == COLS ==> puts_pen(p, s).row == p.row + 1 && puts_pen(
            p,
            s,
        ).col == 0,
        s.len() > 0 && p.col + s.len() < COLS ==> puts_pen(p, s).row == p.row && puts_pen(
            p,
            s,
        ).col == p.col + s.len(),
    decreases s.len(),
{
    if s.len() == 0 {
        assert(puts_pen(p, s).cells =~= text_at(
            p.cells,
            p.row,
            p.col,
            s,
            p.foreground,
            p.background,
        ));
    } else {
        let q = putc_pen(p, s[0]);
        assert(q == write_cell(p, s[0]));
        if p.col + 1 == COLS {
            assert(s.len() == 1);
            assert(s.drop_first() =~= Seq::<u8>::empty());
            assert(puts_pen(p, s) == puts_pen(q, s.drop_first()));
            assert(puts_pen(q, s.drop_first()) == q);
            assert(puts_fits(q, s.drop_first()));
            assert(q.cells =~= text_at(p.cells, p.row, p.col, s, p.foreground, p.background));
        } else {
            lemma_puts_plain(q, s.drop_first());
            assert(puts_pen(p, s) == puts_pen(q, s.drop_first()));
            assert(puts_fits(p, s) == (p.row < ROWS && puts_fits(q, s.drop_first())));
            assert(puts_pen(q, s.drop_first()).cells == text_at(
                q.cells,
                q.row,
                q.col,
                s.drop_first(),
                p.foreground,
                p.background,
            ));
            assert(puts_pen(p, s).cells =~= text_at(
                p.cells,
                p.row,
                p.col,
                s,
                p.foreground,
                p.background,
            ));
        }
    }
}

/// Writing exactly one row's worth of break-free characters from the start
/// of a row fills that row and leaves the cursor at column 0 of the next
/// row, with no blank padding inserted: every cell outside the written row
/// keeps its old contents.
pub proof fn lemma_full_row_wraps_clean(p: Pen, s: Seq<u8>)
    requires
        p.wf(),
        p.row < ROWS,
        p.col == 0,
        s.len() == COLS,
        forall|i: int| 0 <= i < s.len() ==> s[i] != LINE_BREAK,
    ensures
        puts_fits(p, s),
        puts_pen(p, s).row == p.row + 1,
        puts_pen(p, s).col == 0,
        puts_pen(p, s).cells == text_at(p.cells, p.row, 0, s, p.foreground, p.background),
        forall|j: int|
            0 <= j < p.cells.len() && !(p.row * COLS <= j < p.row * COLS + COLS) ==> puts_pen(
                p,
                s,
            ).cells[j] == p.cells[j],
{
    lemma_puts_plain(p, s);
}

/// One space and one line break, typed at the start of a row, leave that
/// whole row blank in the current colors and the cursor at the start of the
/// next row.
pub proof fn lemma_puts_space_line(p: Pen, s: Seq<u8>)
    requires
        p.wf(),
        p.row < ROWS,
        p.col == 0,
        s.len() == 2,
        s[0] == SPACE,
        s[1] == LINE_BREAK,
    ensures
        puts_fits(p, s),
        puts_pen(p, s).cells == blank_row(p.cells, p.row, p.foreground, p.background),
        puts_pen(p, s).row == p.row + 1,
        puts_pen(p, s).col == 0,
        puts_pen(p, s).foreground == p.foreground,
        puts_pen(p, s).background == p.background,
    decreases s.len(),
{
    let q = putc_pen(p, s[0]);
    assert(q == write_cell(p, s[0]));
    assert(s.drop_first()[0] == s[1]);
    assert(s.drop_first().drop_first() =~= Seq::<u8>::empty());
    let r2 = putc_pen(q, s[1]);
    assert(r2 == break_line(q));
    assert(puts_pen(p, s) == puts_pen(q, s.drop_first()));
    assert(puts_pen(q, s.drop_first()) == puts_pen(r2, s.drop_first().drop_first()));
    assert(puts_pen(r2, s.drop_first().drop_first()) == r2);
    assert(puts_fits(r2, s.drop_first().drop_first()));
    assert(puts_fits(q, s.drop_first()));
    assert(puts_fits(p, s));
    assert(r2.cells =~= blank_row(p.cells, p.row, p.foreground, p.background));
}

/// Reading back a region written without line breaks reproduces, in order,
/// exactly the character codes and colors that were passed in; cells before
/// the region keep their old contents.
pub proof fn lemma_round_trip(p: Pen, s: Seq<u8>)
    requires
        p.wf(),
        forall|i: int| 0 <= i < s.len() ==> s[i] != LINE_BREAK,
        p.pos() + s.len() <= GRID_CELLS,
    ensures
        puts_fits(p, s),
        puts_pen(p, s).cells.len() == p.cells.len(),
        forall|i: int|
            0 <= i < s.len() ==> puts_pen(p, s).cells[p.pos() + i] == AChar::attributed(
                s[i],
                p.foreground,
                p.background,
            ),
        forall|j: int| 0 <= j < p.pos() ==> puts_pen(p, s).cells[j] == p.cells[j],
    decreases s.len(),
{
    if s.len() > 0 {
        assert(p.row < ROWS && p.pos() < GRID_CELLS) by (nonlinear_arith)
            requires
                p.pos() == p.row * COLS + p.col,
                p.pos() + s.len() <= GRID_CELLS,
                s.len() > 0,
                0 <= p.col < COLS,
                0 <= p.row,
                COLS == 80,
                ROWS == 37,
                GRID_CELLS == 2960,
        ;
        let q = putc_pen(p, s[0]);
        assert(q == write_cell(p, s[0]));
        assert(q.cells == p.cells.update(p.pos(), AChar::attributed(s[0], p.foreground, p.background)));
        assert(q.cells.len() == p.cells.len());
        assert(q.pos() == p.pos() + 1) by (nonlinear_arith)
            requires
                q.pos() == q.row * COLS + q.col,
                p.pos() == p.row * COLS + p.col,
                (p.col + 1 == COLS ==> q.row == p.row + 1 && q.col == 0),
                (p.col + 1 != COLS ==> q.row == p.row && q.col == p.col + 1),
                0 <= p.col < COLS,
        ;
        lemma_round_trip(q, s.drop_first());
        assert(puts_pen(p, s) == puts_pen(q, s.drop_first()));
        assert(puts_fits(p, s) == (p.row < ROWS && puts_fits(q, s.drop_first())));
        let res = puts_pen(p, s);
        assert forall|j: int| 0 <= j < p.pos() implies res.cells[j] == p.cells[j] by {
            assert(res.cells[j] == q.cells[j]);
            assert(q.cells[j] == p.cells[j]);
        }
        assert forall|i: int| 0 <= i < s.len() implies res.cells[p.pos() + i] == AChar::attributed(
            s[i],
            p.foreground,
            p.background,
        ) by {
            if i == 0 {
                assert(res.cells[p.pos()] == q.cells[p.pos()]);
                assert(q.cells[p.pos()] == AChar::attributed(s[0], p.foreground, p.background));
            } else {
                assert(s.drop_first()[i - 1] == s[i]);
                assert(res.cells[q.pos() + (i - 1)] == AChar::attributed(
                    s.drop_first()[i - 1],
                    q.foreground,
                    q.background,
                ));
                assert(q.pos() + (i - 1) == p.pos() + i);
            }
        }
    }
}

/// A terminal-style write head over the grid. The cursor holds the grid for
/// exactly one exclusive-acquisition window: it is built from the grid the
/// guard handed out and gives it back when the window ends.
pub struct Cursor {
    pub grid: Grid,
    pub row: usize,
    pub col: usize,
    pub foreground: u8,
    pub background: u8,
}

impl Cursor {
    /// The cursor's state as a pen.
    pub open spec fn pen(self) -> Pen {
        Pen {
            cells: self.grid@,
            row: self.row as int,
            col: self.col as int,
            foreground: self.foreground,
            background: self.background,
        }
    }

    /// The grid is well formed and the position is in range.
    pub open spec fn wf(self) -> bool {
        &&& self.grid.wf()
        &&& self.col < COLS
        &&& self.row <= ROWS
    }

    /// A cursor at the top-left corner of `grid`, with the startup pen
    /// colors: a bright foreground over a dim blue background.
    pub fn new(grid: Grid) -> (r: Cursor)
        requires
            grid.wf(),
        ensures
            r.wf(),
            r.grid == grid,
            r.row == 0,
            r.col == 0,
            r.foreground == 0xFF,
            r.background == 0x20,
    {
        Cursor { grid, row: 0, col: 0, foreground: 0xFF, background: 0x20 }
    }

    /// Hands the grid back at the end of the cursor's write window.
    pub fn into_grid(self) -> (r: Grid)
        ensures
            r == self.grid,
    {
        self.grid
    }

    /// Types one character terminal-style: the line-break byte pads the rest
    /// of the current row with blanks and starts the next row; any other
    /// byte becomes one attributed cell and the cursor advances, wrapping at
    /// the last column. A write with the cursor past the last row is refused
    /// and changes nothing.
    pub fn putc(&mut self, c: u8) -> (r: Result<(), CursorError>)
        requires
            old(self).wf(),
        ensures
            final(self).wf(),
            final(self).pen() == putc_pen(old(self).pen(), c),
            old(self).row < ROWS ==> r == Ok::<(), CursorError>(()),
            old(self).row >= ROWS ==> r == Err::<(), CursorError>(CursorError::PastEnd),
    {
        if self.row >= ROWS {
            return Err(CursorError::PastEnd);
        }
        if c == LINE_BREAK {
            let ghost p0 = self.pen();
            proof {
                assert((self.row + 1) * COLS <= GRID_CELLS) by (nonlinear_arith)
                    requires
                        self.row < ROWS,
                        COLS == 80,
                        ROWS == 37,
                        GRID_CELLS == 2960,
                ;
                assert(self.row * COLS + self.col < (self.row + 1) * COLS) by (nonlinear_arith)
                    requires
                        self.col < COLS,
                ;
            }
            let pos: usize = self.row * COLS + self.col;
            let end: usize = (self.row + 1) * COLS;
            let cell = AChar::from_character(SPACE).with_foreground(self.foreground).with_background(
                self.background,
            );
            let mut p: usize = pos;
            proof {
                assert(self.grid@ =~= Seq::new(
                    p0.cells.len(),
                    |i: int|
                        if p0.pos() <= i < p as int {
                            space_cell(p0.foreground, p0.background)
                        } else {
                            p0.cells[i]
                        },
                ));
            }
            while p < end
                invariant
                    p0.wf(),
                    pos == p0.pos(),
                    end == line_break_end(p0),
                    pos <= p <= end,
                    end <= GRID_CELLS,
                    cell == space_cell(p0.foreground, p0.background),
                    cell.wf(),
                    self.grid.wf(),
                    self.row == p0.row,
                    self.col == p0.col,
                    self.foreground == p0.foreground,
                    self.background == p0.background,
                    self.grid@ == Seq::new(
                        p0.cells.len(),
                        |i: int|
                            if p0.pos() <= i < p as int {
                                space_cell(p0.foreground, p0.background)
                            } else {
                                p0.cells[i]
                            },
                    ),
                decreases end - p,
            {
                self.grid.put(p, cell);
                p = p + 1;
                proof {
                    assert(self.grid@ =~= Seq::new(
                        p0.cells.len(),
                        |i: int|
                            if p0.pos() <= i < p as int {
                                space_cell(p0.foreground, p0.background)
                            } else {
                                p0.cells[i]
                            },
                    ));
                }
            }
            self.col = 0;
            self.row = self.row + 1;
            proof {
                assert(final(self).pen() =~= break_line(p0));
            }
            Ok(())
        } else {
            proof {
                assert(self.row * COLS + self.col < GRID_CELLS) by (nonlinear_arith)
                    requires
                        self.row < ROWS,
                        self.col < COLS,
                        COLS == 80,
                        ROWS == 37,
                        GRID_CELLS == 2960,
                ;
            }
            let idx: usize = self.row * COLS + self.col;
            let cell = AChar::from_character(c).with_foreground(self.foreground).with_background(
                self.background,
            );
            self.grid.put(idx, cell);
            self.col = self.col + 1;
            if self.col == COLS {
                self.col = 0;
                self.row = self.row + 1;
            }
            proof {
                assert(final(self).pen() =~= write_cell(old(self).pen(), c));
            }
            Ok(())
        }
    }

    /// Types each character of `s` in turn, left to right. When every write
    /// lands on the grid the whole string is typed; otherwise typing stops
    /// at the first refused write and the error is reported.
    pub fn puts(&mut self, s: &str) -> (r: Result<(), CursorError>)
        requires
            old(self).wf(),
        ensures
            final(self).wf(),
            final(self).pen() == puts_pen(old(self).pen(), bytes_of(s@)),
            r == Ok::<(), CursorError>(()) <==> puts_fits(old(self).pen(), bytes_of(s@)),
            !puts_fits(old(self).pen(), bytes_of(s@)) ==> r == Err::<(), CursorError>(
                CursorError::PastEnd,
            ),
    {
        let ghost p0 = self.pen();
        let ghost b = bytes_of(s@);
        let n = s.unicode_len();
        let mut i: usize = 0;
        proof {
            assert(b.take(0) =~= Seq::<u8>::empty());
        }
        while i < n
            invariant
                n == s@.len(),
                p0 == old(self).pen(),
                b == bytes_of(s@),
                b.len() == n,
                i <= n,
                self.wf(),
                self.pen() == puts_pen(p0, b.take(i as int)),
                puts_fits(p0, b.take(i as int)),
            decreases n - i,
        {
            let c = s.get_char(i);
            let code = char_code(c);
            let ghost cur = self.pen();
            let res = self.putc(code);
            proof {
                assert(b.take(i + 1) =~= b.take(i as int).push(byte_of(s@[i as int])));
                lemma_puts_pen_snoc(p0, b.take(i as int), byte_of(s@[i as int]));
            }
            if res.is_err() {
                proof {
                    assert(cur.row >= ROWS);
                    assert(putc_pen(cur, code) == cur);
                    assert(self.pen() == cur);
                    lemma_puts_pen_split(p0, b, i as int);
                    lemma_puts_pen_stuck(cur, b.skip(i as int));
                    assert(b.skip(i as int).len() == b.len() - i);
                    assert(puts_pen(p0, b) == cur);
                    assert(!puts_fits(p0, b));
                }
                return Err(CursorError::PastEnd);
            }
            i = i + 1;
        }
        proof {
            assert(b.take(n as int) =~= b);
        }
        Ok(())
    }

    /// Feeds assembled textual content, numeric formatting included, into
    /// the grid one character at a time: the hook formatted output is
    /// written through. Characters outside the 8-bit range are truncated
    /// to their low 8 bits.
    pub fn write_str(&mut self, s: &str) -> (r: Result<(), CursorError>)
        requires
            old(self).wf(),
        ensures
            final(self).wf(),
            final(self).pen() == puts_pen(old(self).pen(), bytes_of(s@)),
            r == Ok::<(), CursorError>(()) <==> puts_fits(old(self).pen(), bytes_of(s@)),
            !puts_fits(old(self).pen(), bytes_of(s@)) ==> r == Err::<(), CursorError>(
                CursorError::PastEnd,
            ),
    {
        self.puts(s)
    }

    /// Repositions to `(row, col)` and types `s`, which holds no line break
    /// and fits on that row, under the current colors.
    pub fn put_text(&mut self, row: usize, col: usize, s: &str) -> (r: Result<(), CursorError>)
        requires
            old(self).wf(),
            row < ROWS,
            col < COLS,
            col + s@.len() <= COLS,
            forall|i: int| 0 <= i < s@.len() ==> bytes_of(s@)[i] != LINE_BREAK,
        ensures
            final(self).wf(),
            r == Ok::<(), CursorError>(()),
            final(self).grid@ == text_at(
                old(self).grid@,
                row as int,
                col as int,
                bytes_of(s@),
                old(self).foreground,
                old(self).background,
            ),
            final(self).foreground == old(self).foreground,
            final(self).background == old(self).background,
            s@.len() == 0 ==> final(self).row == row && final(self).col == col,
            s@.len() > 0 && col + s@.len() == COLS ==> final(self).row == row + 1
                && final(self).col == 0,
            s@.len() > 0 && col + s@.len() < COLS ==> final(self).row == row && final(self).col
                == col + s@.len(),
    {
        let _ = self.goto(row, col);
        let ghost p1 = self.pen();
        proof {
            lemma_puts_plain(p1, bytes_of(s@));
        }
        self.puts(s)
    }

    /// Repositions to the start of row `row` and blanks that whole row in
    /// the current colors by typing one space and a line break; the cursor
    /// ends at the start of the next row.
    pub fn blank_line(&mut self, row: usize) -> (r: Result<(), CursorError>)
        requires
            old(self).wf(),
            row < ROWS,
        ensures
            final(self).wf(),
            r == Ok::<(), CursorError>(()),
            final(self).grid@ == blank_row(
                old(self).grid@,
                row as int,
                old(self).foreground,
                old(self).background,
            ),
            final(self).row == row + 1,
            final(self).col == 0,
            final(self).foreground == old(self).foreground,
            final(self).background == old(self).background,
    {
        let _ = self.goto(row, 0);
        let ghost p1 = self.pen();
        proof {
            reveal_strlit(" \n");
            assert(bytes_of(" \n"@).len() == 2);
            assert(bytes_of(" \n"@)[0] == SPACE);
            assert(bytes_of(" \n"@)[1] == LINE_BREAK);
            lemma_puts_space_line(p1, bytes_of(" \n"@));
        }
        self.puts(" \n")
    }

    /// Clears the whole grid: repositions to the top-left corner and types a
    /// blank into every cell, row by row, through the same write primitive
    /// as any other character, so the blanks carry the current colors. The
    /// cursor ends at the start of the row past the last one.
    pub fn clear(&mut self)
        requires
            old(self).wf(),
        ensures
            final(self).wf(),
            final(self).grid@ == filled(old(self).foreground, old(self).background),
            final(self).row == ROWS,
            final(self).col == 0,
            final(self).foreground == old(self).foreground,
            final(self).background == old(self).background,
    {
        let _ = self.goto(0, 0);
        let mut i: usize = 0;
        while i < GRID_CELLS
            invariant
                self.wf(),
                self.foreground == old(self).foreground,
                self.background == old(self).background,
                i <= GRID_CELLS,
                self.row * COLS + self.col == i,
                self.grid@.len() == GRID_CELLS,
                forall|j: int|
                    0 <= j < i ==> self.grid@[j] == space_cell(
                        old(self).foreground,
                        old(self).background,
                    ),
            decreases GRID_CELLS - i,
        {
            proof {
                assert(self.row < ROWS && self.row * COLS + self.col < GRID_CELLS)
                    by (nonlinear_arith)
                    requires
                        self.row * COLS + self.col == i,
                        i < GRID_CELLS,
                        self.col < COLS,
                        self.row <= ROWS,
                        COLS == 80,
                        ROWS == 37,
                        GRID_CELLS == 2960,
                ;
                assert((self.row + 1) * COLS == self.row * COLS + COLS) by (nonlinear_arith);
            }
            let _ = self.putc(SPACE);
            i = i + 1;
        }
        proof {
            assert(self.row == ROWS && self.col == 0) by (nonlinear_arith)
                requires
                    self.row * COLS + self.col == GRID_CELLS,
                    self.col < COLS,
                    self.row <= ROWS,
                    COLS == 80,
                    ROWS == 37,
                    GRID_CELLS == 2960,
            ;
            assert(self.grid@ =~= filled(old(self).foreground, old(self).background));
        }
    }

    /// Repositions the write head; a row or column outside the grid is
    /// refused and changes nothing.
    pub fn goto(&mut self, row: usize, col: usize) -> (r: Result<(), CursorError>)
        requires
            old(self).wf(),
        ensures
            final(self).wf(),
            final(self).grid == old(self).grid,
            final(self).foreground == old(self).foreground,
            final(self).background == old(self).background,
            row < ROWS && col < COLS ==> r == Ok::<(), CursorError>(()) && final(self).row == row
                && final(self).col == col,
            !(row < ROWS && col < COLS) ==> r == Err::<(), CursorError>(CursorError::BadPosition)
                && final(self).row == old(self).row && final(self).col == old(self).col,
    {
        if row >= ROWS || col >= COLS {
            return Err(CursorError::BadPosition);
        }
        self.row = row;
        self.col = col;
        Ok(())
    }
}

} // verus!
