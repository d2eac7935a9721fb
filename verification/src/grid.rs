//! The authoritative logical grid: a fixed `GRID_WIDTH x GRID_HEIGHT` field
//! of cell states, stored as a flat row-major buffer, together with the
//! coordinate types carried by redraw signals.

use vstd::prelude::*;

verus! {

/// Number of columns of the logical grid.
pub const GRID_WIDTH: usize = 10;

/// Number of rows of the logical grid.
pub const GRID_HEIGHT: usize = 20;

/// Number of cells of the logical grid, and of placeholders of the render tree.
pub const GRID_CELLS: usize = 200;

/// The closed set of block colors a cell can be occupied with.
#[derive(Clone, Copy, PartialEq, Eq, Structural, Debug)]
pub enum BlockColor {
    Blue,
    Green,
    Orange,
    Pink,
    Red,
    Yellow,
}

/// State of one grid cell: empty, or occupied by a block of one color.
#[derive(Clone, Copy, PartialEq, Eq, Structural, Debug)]
pub enum GridObject {
    Empty,
    Tetrino(BlockColor),
}

/// A grid coordinate carried by a redraw signal: `x` is the column,
/// `y` the row.
#[derive(Clone, Copy, PartialEq, Eq, Structural, Debug)]
pub struct TileCoord {
    pub x: u16,
    pub y: u16,
}

/// The logical grid. Single source of truth for which block, if any,
/// occupies each cell. Cells are stored row-major: cell `(x, y)` lives at
/// flat index `y * GRID_WIDTH + x`, the same index order the render tree
/// uses for its placeholders.
pub struct Grid {
    cells: Vec<GridObject>,
}

/// Flat row-major index of cell `(x, y)`.
pub open spec fn cell_index(x: int, y: int) -> int {
    y * GRID_WIDTH + x
}

impl Grid {
    /// The grid as a flat sequence of `GRID_CELLS` cell states.
    pub closed spec fn view(&self) -> Seq<GridObject> {
        self.cells@
    }

    /// Well-formedness: the backing buffer holds exactly one state per cell.
    pub open spec fn wf(&self) -> bool {
        self@.len() == GRID_CELLS
    }

    /// The state of cell `(x, y)`, as a spec-level function of the view.
    pub open spec fn cell(&self, x: int, y: int) -> GridObject {
        self@[cell_index(x, y)]
    }

    /// Bounds-checked read of cell `(x, y)`; callers must keep the
    /// coordinates in range.
    pub fn get(&self, x: usize, y: usize) -> (obj: GridObject)
        requires
            self.wf(),
            x < GRID_WIDTH,
            y < GRID_HEIGHT,
        ensures
            obj == self.cell(x as int, y as int),
    {
        self.cells[y * GRID_WIDTH + x]
    }

    /// Replaces the state of cell `(x, y)` unconditionally. The grid never
    /// notifies listeners: it is the caller's responsibility to emit a
    /// redraw signal naming `(x, y)` afterwards so visuals stay consistent.
    pub fn set(&mut self, x: usize, y: usize, obj: GridObject)
        requires
            old(self).wf(),
            x < GRID_WIDTH,
            y < GRID_HEIGHT,
        ensures
            final(self).wf(),
            final(self)@ == old(self)@.update(cell_index(x as int, y as int), obj),
    {
        let i: usize = y * GRID_WIDTH + x;
        self.cells[i] = obj;
    }
}

impl Default for Grid {
    /// A grid with every cell empty.
    fn default() -> (grid: Grid)
        ensures
            grid.wf(),
            forall|x: int, y: int|
                0 <= x < GRID_WIDTH && 0 <= y < GRID_HEIGHT ==> grid.cell(x, y) == GridObject::Empty,
    {
        let mut cells: Vec<GridObject> = Vec::new();
        let mut i: usize = 0;
        while i < GRID_CELLS
            invariant
                i <= GRID_CELLS,
                cells@.len() == i,
                forall|j: int| 0 <= j < i ==> cells@[j] == GridObject::Empty,
            decreases GRID_CELLS - i,
        {
            cells.push(GridObject::Empty);
            i = i + 1;
        }
        Grid { cells }
    }
}

} // verus!
