//! The grid store: a fixed-size field of cells, each empty or holding one
//! particle, indexed `[x][y]` and laid out x-major.
use vstd::prelude::*;
use crate::particle::Particle;

verus! {

/// Number of columns.
pub const SIMULATION_WIDTH: usize = 600;

/// Number of rows.
pub const SIMULATION_HEIGHT: usize = 400;

/// Number of cells, `SIMULATION_WIDTH * SIMULATION_HEIGHT`.
pub const CELL_COUNT: usize = 240000;

/// Position of cell `(x, y)` in the x-major layout, which is also the order
/// in which the update passes sweep the grid.
pub open spec fn index_of(x: int, y: int) -> int {
    x * SIMULATION_HEIGHT + y
}

/// Whether `(x, y)` lies on the grid.
pub open spec fn in_bounds(x: int, y: int) -> bool {
    0 <= x < SIMULATION_WIDTH && 0 <= y < SIMULATION_HEIGHT
}

/// Whether no cell of `g` holds a particle.
pub open spec fn all_empty(g: Seq<Option<Particle>>) -> bool {
    forall|i: int| 0 <= i < g.len() ==> (#[trigger] g[i]).is_none()
}

/// The cells of the simulation. Each cell holds at most one particle.
pub struct Grid {
    cells: Vec<Option<Particle>>,
}

impl View for Grid {
    type V = Seq<Option<Particle>>;

    closed spec fn view(&self) -> Seq<Option<Particle>> {
        self.cells@
    }
}

impl Grid {
    #[verifier::type_invariant]
    spec fn full_size(&self) -> bool {
        self.cells@.len() == CELL_COUNT
    }

    /// A grid with every cell empty.
    pub fn empty() -> (g: Grid)
        ensures
            g@.len() == CELL_COUNT,
            all_empty(g@),
    {
        let mut cells: Vec<Option<Particle>> = Vec::new();
        let mut i: usize = 0;
        while i < CELL_COUNT
            invariant
                i <= CELL_COUNT,
                cells@.len() == i,
                all_empty(cells@),
            decreases CELL_COUNT - i,
        {
            cells.push(None);
            i = i + 1;
        }
        Grid { cells }
    }

    /// The number of cells, always `CELL_COUNT`.
    pub fn len(&self) -> (n: usize)
        ensures
            n == CELL_COUNT,
            self@.len() == CELL_COUNT,
    {
        proof { use_type_invariant(self); }
        self.cells.len()
    }

    /// The cell at `(x, y)`.
    pub fn get(&self, x: usize, y: usize) -> (c: Option<Particle>)
        requires
            in_bounds(x as int, y as int),
        ensures
            c == self@[index_of(x as int, y as int)],
            self@.len() == CELL_COUNT,
    {
        proof { use_type_invariant(self); }
        self.cells[x * SIMULATION_HEIGHT + y]
    }

    /// Replaces the cell at `(x, y)` by `cell`.
    pub fn set(&mut self, x: usize, y: usize, cell: Option<Particle>)
        requires
            in_bounds(x as int, y as int),
        ensures
            final(self)@ == old(self)@.update(index_of(x as int, y as int), cell),
            old(self)@.len() == CELL_COUNT,
    {
        proof { use_type_invariant(&*self); }
        self.cells[x * SIMULATION_HEIGHT + y] = cell;
    }

    /// Moves whatever `(x, y)` holds to `(to_x, to_y)`, overwriting it, and
    /// leaves `(x, y)` empty unless it is the target itself.
    pub fn move_particle(&mut self, x: usize, y: usize, to_x: usize, to_y: usize)
        requires
            in_bounds(x as int, y as int),
            in_bounds(to_x as int, to_y as int),
        ensures
            final(self)@ == old(self)@.update(index_of(x as int, y as int), None).update(
                index_of(to_x as int, to_y as int),
                old(self)@[index_of(x as int, y as int)],
            ),
    {
        proof { use_type_invariant(&*self); }
        let moving = self.cells[x * SIMULATION_HEIGHT + y];
        self.cells[x * SIMULATION_HEIGHT + y] = None;
        self.cells[to_x * SIMULATION_HEIGHT + to_y] = moving;
    }

    /// The cell at position `i` of the x-major layout.
    pub(crate) fn at(&self, i: usize) -> (c: Option<Particle>)
        requires
            i < CELL_COUNT,
        ensures
            c == self@[i as int],
            self@.len() == CELL_COUNT,
    {
        proof { use_type_invariant(self); }
        self.cells[i]
    }

    /// Replaces the cell at position `i` of the x-major layout.
    pub(crate) fn put(&mut self, i: usize, cell: Option<Particle>)
        requires
            i < CELL_COUNT,
        ensures
            final(self)@ == old(self)@.update(i as int, cell),
            old(self)@.len() == CELL_COUNT,
    {
        proof { use_type_invariant(&*self); }
        self.cells[i] = cell;
    }

    /// A copy of every cell, in the x-major layout.
    pub fn snapshot(&self) -> (s: Vec<Option<Particle>>)
        ensures
            s@ == self@,
            s@.len() == CELL_COUNT,
    {
        proof { use_type_invariant(self); }
        let mut s: Vec<Option<Particle>> = Vec::new();
        let mut i: usize = 0;
        while i < CELL_COUNT
            invariant
                i <= CELL_COUNT,
                self.cells@.len() == CELL_COUNT,
                s@ == self.cells@.subrange(0, i as int),
            decreases CELL_COUNT - i,
        {
            s.push(self.cells[i]);
            i = i + 1;
            assert(s@ =~= self.cells@.subrange(0, i as int));
        }
        assert(s@ =~= self.cells@);
        s
    }
}

} // verus!
