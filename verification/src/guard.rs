//! The shared buffer guard: a non-blocking mutual-exclusion wrapper around
//! the single grid, which is written by the application loop during
//! vertical blank and read by the scan-out path during active rendering.

use vstd::prelude::*;

use crate::cell::AChar;
use crate::grid::{Grid, GRID_CELLS};

verus! {

/// The guard around the one shared grid. At most one holder exists at a
/// time: acquiring moves the grid out to the holder, releasing moves it
/// back, so release is guaranteed on every exit path by ownership alone.
/// A second acquisition while the grid is out fails immediately rather
/// than waiting: the timing protocol keeps the two contexts apart, and in
/// this system a failed acquisition signals that the protocol was broken,
/// not a race to recover from.
pub struct BufferGuard {
    pub slot: Option<Grid>,
}

impl BufferGuard {
    /// The guard is currently held: the grid is out with its one holder.
    pub open spec fn held(self) -> bool {
        self.slot is None
    }

    /// Any grid resting in the guard is well formed.
    pub open spec fn wf(self) -> bool {
        self.slot matches Some(g) ==> g.wf()
    }

    /// A guard around a fresh all-blank grid, held by nobody.
    pub fn new() -> (r: BufferGuard)
        ensures
            r.wf(),
            !r.held(),
            r.slot matches Some(g) && g@ == Seq::new(GRID_CELLS as nat, |i: int| AChar::blank()),
    {
        BufferGuard { slot: Some(Grid::new()) }
    }

    /// Attempts to take exclusive hold of the grid. The attempt never
    /// blocks: it hands the grid out when the guard is free, and fails at
    /// once when the guard is already held, so a second acquisition attempt
    /// on an already-acquired guard always fails.
    pub fn try_acquire(&mut self) -> (r: Option<Grid>)
        requires
            old(self).wf(),
        ensures
            final(self).wf(),
            old(self).held() ==> r is None && final(self).slot == old(self).slot,
            !old(self).held() ==> final(self).held() && r == old(self).slot && (r matches Some(g)
                && g.wf()),
    {
        self.slot.take()
    }

    /// Gives the grid back, ending the exclusive window.
    pub fn release(&mut self, grid: Grid)
        requires
            old(self).held(),
            grid.wf(),
        ensures
            final(self).wf(),
            !final(self).held(),
            final(self).slot == Some(grid),
    {
        self.slot = Some(grid);
    }
}

} // verus!
