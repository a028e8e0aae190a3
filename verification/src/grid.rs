//! The display grid: a fixed-size, row-major sequence of attributed cells.

use vstd::prelude::*;

use crate::cell::AChar;

verus! {

/// Number of character columns on the display.
pub const COLS: usize = 80;

/// Number of character rows on the display.
pub const ROWS: usize = 37;

/// Total number of cells in the grid; the grid never resizes.
pub const GRID_CELLS: usize = COLS * ROWS;

/// The whole displayable text area, in row-major order: the cell at
/// `(row, col)` sits at index `row * COLS + col`.
pub struct Grid {
    pub cells: Vec<AChar>,
}

impl View for Grid {
    type V = Seq<AChar>;

    open spec fn view(&self) -> Seq<AChar> {
        self.cells@
    }
}

impl Grid {
    /// The grid holds exactly `GRID_CELLS` well-formed cells.
    pub open spec fn wf(self) -> bool {
        &&& self@.len() == GRID_CELLS
        &&& forall|i: int| 0 <= i < self@.len() ==> (#[trigger] self@[i]).wf()
    }

    /// A fresh grid of all-blank cells.
    pub fn new() -> (r: Grid)
        ensures
            r.wf(),
            r@ == Seq::new(GRID_CELLS as nat, |i: int| AChar::blank()),
    {
        let mut cells: Vec<AChar> = Vec::new();
        while cells.len() < GRID_CELLS
            invariant
                cells@.len() <= GRID_CELLS,
                forall|i: int| 0 <= i < cells@.len() ==> cells@[i] == AChar::blank(),
            decreases GRID_CELLS - cells.len(),
        {
            cells.push(AChar::from_character(0));
        }
        proof {
            assert(cells@ =~= Seq::new(GRID_CELLS as nat, |i: int| AChar::blank()));
        }
        Grid { cells }
    }

    /// The cell currently stored at `(row, col)`: the bounded read the
    /// scan-out path performs, one cell at a time, while it holds the grid.
    pub fn cell_at(&self, row: usize, col: usize) -> (r: AChar)
        requires
            self.wf(),
            row < ROWS,
            col < COLS,
        ensures
            r == self@[row * COLS + col],
    {
        proof {
            assert(row * COLS + col < GRID_CELLS) by (nonlinear_arith)
                requires
                    row < ROWS,
                    col < COLS,
                    COLS == 80,
                    ROWS == 37,
                    GRID_CELLS == 2960,
            ;
        }
        self.cells[row * COLS + col]
    }

    /// Stores `cell` at the given flat index.
    pub(crate) fn put(&mut self, idx: usize, cell: AChar)
        requires
            old(self).wf(),
            idx < GRID_CELLS,
            cell.wf(),
        ensures
            final(self).wf(),
            final(self)@ == old(self)@.update(idx as int, cell),
    {
        self.cells.set(idx, cell);
    }
}

} // verus!
