//! The 10x10 combat grid: cell states, shot resolution, counting and the
//! masked views that are synchronized to reconnecting clients.

use vstd::prelude::*;

verus! {

/// State of a single grid cell.
#[derive(Clone, Copy, Debug, PartialEq, Eq, Structural)]
pub enum CellState {
    Empty,
    Ship,
    Hit,
    Miss,
}

/// Outcome of one shot delivered to a grid.
#[derive(Clone, Copy, Debug, PartialEq, Eq, Structural)]
pub enum ShotOutcome {
    Hit,
    Miss,
    AlreadyFired,
    OutOfBounds,
}

/// A player's own grid, stored row-major: the cell at column `x`, row `y`
/// lives at index `y * 10 + x`.
#[derive(Clone, Debug)]
pub struct Grid {
    pub cells: Vec<CellState>,
}

impl Default for Grid {
    /// A fresh, all-water grid.
    fn default() -> (g: Self)
        ensures
            g.wf(),
            forall|i: int| 0 <= i < 100 ==> g.cells@[i] == CellState::Empty,
    {
        Grid::new()
    }
}

/// Number of cells in `s` that hold state `c`.
pub open spec fn count_cells(s: Seq<CellState>, c: CellState) -> nat
    decreases s.len(),
{
    if s.len() == 0 {
        0
    } else {
        count_cells(s.drop_last(), c) + if s.last() == c {
            1nat
        } else {
            0nat
        }
    }
}

/// How a cell of the opponent's grid is shown to the other player:
/// intact ship cells are indistinguishable from water.
pub open spec fn mask_cell(c: CellState) -> CellState {
    match c {
        CellState::Ship => CellState::Empty,
        _ => c,
    }
}

impl Grid {
    /// A grid is well formed when it has exactly one cell per coordinate.
    pub open spec fn wf(&self) -> bool {
        self.cells@.len() == 100
    }

    /// The cell at column `x`, row `y`.
    pub open spec fn spec_at(&self, x: int, y: int) -> CellState {
        self.cells@[y * 10 + x]
    }

    /// A fresh, all-water grid.
    pub fn new() -> (g: Grid)
        ensures
            g.wf(),
            forall|i: int| 0 <= i < 100 ==> g.cells@[i] == CellState::Empty,
    {
        let mut cells: Vec<CellState> = Vec::new();
        let mut i: usize = 0;
        while i < 100
            invariant
                i <= 100,
                cells@.len() == i as int,
                forall|j: int| 0 <= j < i as int ==> cells@[j] == CellState::Empty,
            decreases 100 - i,
        {
            cells.push(CellState::Empty);
            i = i + 1;
        }
        Grid { cells }
    }

    /// Read one cell.
    pub fn at(&self, x: usize, y: usize) -> (c: CellState)
        requires
            self.wf(),
            x < 10,
            y < 10,
        ensures
            c == self.spec_at(x as int, y as int),
    {
        self.cells[y * 10 + x]
    }

    /// Resolve a shot at `(x, y)`: water becomes a miss, a ship cell becomes
    /// a hit, anything already shot at is reported as such, and out-of-range
    /// coordinates leave the grid untouched.
    pub fn receive_shot(&mut self, x: usize, y: usize) -> (r: ShotOutcome)
        requires
            old(self).wf(),
        ensures
            final(self).wf(),
            (x >= 10 || y >= 10) ==> r == ShotOutcome::OutOfBounds && *final(self) == *old(self),
            (x < 10 && y < 10) ==> match old(self).spec_at(x as int, y as int) {
                CellState::Empty => r == ShotOutcome::Miss && final(self).cells@ == old(
                    self,
                ).cells@.update(y * 10 + x, CellState::Miss),
                CellState::Ship => r == ShotOutcome::Hit && final(self).cells@ == old(
                    self,
                ).cells@.update(y * 10 + x, CellState::Hit),
                _ => r == ShotOutcome::AlreadyFired && *final(self) == *old(self),
            },
    {
        if x >= 10 || y >= 10 {
            return ShotOutcome::OutOfBounds;
        }
        let idx: usize = y * 10 + x;
        match self.cells[idx] {
            CellState::Empty => {
                self.cells[idx] = CellState::Miss;
                ShotOutcome::Miss
            },
            CellState::Ship => {
                self.cells[idx] = CellState::Hit;
                ShotOutcome::Hit
            },
            _ => ShotOutcome::AlreadyFired,
        }
    }

    /// Count the cells currently holding state `c`.
    pub fn count(&self, c: CellState) -> (n: usize)
        requires
            self.wf(),
        ensures
            n == count_cells(self.cells@, c),
    {
        let mut n: usize = 0;
        let mut i: usize = 0;
        while i < 100
            invariant
                self.wf(),
                i <= 100,
                n <= i,
                n == count_cells(self.cells@.take(i as int), c),
            decreases 100 - i,
        {
            proof {
                assert(self.cells@.take(i as int + 1).drop_last() =~= self.cells@.take(i as int));
                assert(self.cells@.take(i as int + 1).last() == self.cells@[i as int]);
            }
            if self.cells[i] == c {
                n = n + 1;
            }
            i = i + 1;
        }
        proof {
            assert(self.cells@.take(100) =~= self.cells@);
        }
        n
    }

    /// The grid as ten rows of ten cells, optionally masked for the enemy's
    /// eyes (intact ship cells shown as water).
    pub fn rows(&self, mask: bool) -> (r: Vec<Vec<CellState>>)
        requires
            self.wf(),
        ensures
            r@.len() == 10,
            forall|i: int| 0 <= i < 10 ==> (#[trigger] r@[i])@.len() == 10,
            forall|i: int, j: int|
                0 <= i < 10 && 0 <= j < 10 ==> #[trigger] r@[i]@[j] == if mask {
                    mask_cell(self.spec_at(j, i))
                } else {
                    self.spec_at(j, i)
                },
    {
        let mut rows: Vec<Vec<CellState>> = Vec::new();
        let mut y: usize = 0;
        while y < 10
            invariant
                self.wf(),
                y <= 10,
                rows@.len() == y as int,
                forall|i: int| 0 <= i < y as int ==> (#[trigger] rows@[i])@.len() == 10,
                forall|i: int, j: int|
                    0 <= i < y as int && 0 <= j < 10 ==> #[trigger] rows@[i]@[j] == if mask {
                        mask_cell(self.spec_at(j, i))
                    } else {
                        self.spec_at(j, i)
                    },
            decreases 10 - y,
        {
            let mut row: Vec<CellState> = Vec::new();
            let mut x: usize = 0;
            while x < 10
                invariant
                    self.wf(),
                    y < 10,
                    x <= 10,
                    row@.len() == x as int,
                    forall|j: int|
                        0 <= j < x as int ==> row@[j] == if mask {
                            mask_cell(self.spec_at(j, y as int))
                        } else {
                            self.spec_at(j, y as int)
                        },
                decreases 10 - x,
            {
                let c = self.at(x, y);
                if mask {
                    row.push(match c {
                        CellState::Ship => CellState::Empty,
                        _ => c,
                    });
                } else {
                    row.push(c);
                }
                x = x + 1;
            }
            rows.push(row);
            y = y + 1;
        }
        rows
    }
}

} // verus!

