//! The simulation: a grid plus the generation counter, and the per-step
//! pipeline of movement, heat diffusion and interactions.
use vstd::prelude::*;
use crate::grid::{
    Grid, all_empty, in_bounds, index_of, CELL_COUNT, SIMULATION_HEIGHT, SIMULATION_WIDTH,
};
use crate::particle::{Particle, ParticleType};
use crate::thermal::{diffuse, diffused};

verus! {

/// Temperature from which glass flows like a liquid.
pub const GLASS_MELTING_POINT: i16 = 30;

/// The movement strategy a particle is handed to in the movement pass.
#[derive(Clone, Copy, Debug, PartialEq, Eq, Structural)]
pub enum Movement {
    Powder,
    Solid,
    Liquid,
    Electric,
    Stationary,
}

/// The reaction hook a particle is handed to in the interaction pass.
#[derive(Clone, Copy, Debug, PartialEq, Eq, Structural)]
pub enum Reaction {
    Sand,
    Water,
    Acid,
    Replicator,
    Plant,
    Cryotheum,
    Unstable,
    Electricity,
}

/// Which movement strategy applies to `p`: a growing plant stays put, and
/// glass flows once it is at its melting point.
pub open spec fn spec_movement_of(p: Particle) -> Movement {
    match p.ptype {
        ParticleType::Sand => Movement::Powder,
        ParticleType::WetSand => Movement::Solid,
        ParticleType::Water => Movement::Liquid,
        ParticleType::Acid => Movement::Liquid,
        ParticleType::Iridium => Movement::Stationary,
        ParticleType::Replicator => Movement::Stationary,
        ParticleType::Plant => if p.extra_data2 == 0 {
            Movement::Powder
        } else {
            Movement::Stationary
        },
        ParticleType::Cryotheum => Movement::Solid,
        ParticleType::Unstable => Movement::Stationary,
        ParticleType::Electricity => Movement::Electric,
        ParticleType::Glass => if p.temperature >= GLASS_MELTING_POINT {
            Movement::Liquid
        } else {
            Movement::Solid
        },
    }
}

/// The movement strategy that applies to `p`.
pub fn movement_of(p: &Particle) -> (m: Movement)
    ensures
        m == spec_movement_of(*p),
{
    match p.ptype {
        ParticleType::Sand => Movement::Powder,
        ParticleType::WetSand => Movement::Solid,
        ParticleType::Water => Movement::Liquid,
        ParticleType::Acid => Movement::Liquid,
        ParticleType::Iridium => Movement::Stationary,
        ParticleType::Replicator => Movement::Stationary,
        ParticleType::Plant => if p.extra_data2 == 0 {
            Movement::Powder
        } else {
            Movement::Stationary
        },
        ParticleType::Cryotheum => Movement::Solid,
        ParticleType::Unstable => Movement::Stationary,
        ParticleType::Electricity => Movement::Electric,
        ParticleType::Glass => if p.temperature >= GLASS_MELTING_POINT {
            Movement::Liquid
        } else {
            Movement::Solid
        },
    }
}

/// Which reaction hook applies to a particle of kind `t`; wet sand, iridium
/// and glass have none.
pub open spec fn spec_reaction_of(t: ParticleType) -> Option<Reaction> {
    match t {
        ParticleType::Sand => Some(Reaction::Sand),
        ParticleType::WetSand => None,
        ParticleType::Water => Some(Reaction::Water),
        ParticleType::Acid => Some(Reaction::Acid),
        ParticleType::Iridium => None,
        ParticleType::Replicator => Some(Reaction::Replicator),
        ParticleType::Plant => Some(Reaction::Plant),
        ParticleType::Cryotheum => Some(Reaction::Cryotheum),
        ParticleType::Unstable => Some(Reaction::Unstable),
        ParticleType::Electricity => Some(Reaction::Electricity),
        ParticleType::Glass => None,
    }
}

/// The reaction hook that applies to a particle of kind `t`, if any.
pub fn reaction_of(t: ParticleType) -> (r: Option<Reaction>)
    ensures
        r == spec_reaction_of(t),
{
    match t {
        ParticleType::Sand => Some(Reaction::Sand),
        ParticleType::WetSand => None,
        ParticleType::Water => Some(Reaction::Water),
        ParticleType::Acid => Some(Reaction::Acid),
        ParticleType::Iridium => None,
        ParticleType::Replicator => Some(Reaction::Replicator),
        ParticleType::Plant => Some(Reaction::Plant),
        ParticleType::Cryotheum => Some(Reaction::Cryotheum),
        ParticleType::Unstable => Some(Reaction::Unstable),
        ParticleType::Electricity => Some(Reaction::Electricity),
        ParticleType::Glass => None,
    }
}

/// The per-kind physics the pipeline dispatches to. A movement hook moves
/// the particle at `(x, y)` and returns where it now stands; a reaction hook
/// may change the grid around `(x, y)` in any way. The pipeline checks what
/// a movement hook returns before it relies on it.
pub trait Behavior {
    fn move_powder(&mut self, grid: &mut Grid, x: usize, y: usize) -> (usize, usize);

    fn move_solid(&mut self, grid: &mut Grid, x: usize, y: usize) -> (usize, usize);

    fn move_liquid(&mut self, grid: &mut Grid, x: usize, y: usize) -> (usize, usize);

    fn move_electricity(&mut self, grid: &mut Grid, x: usize, y: usize) -> (usize, usize);

    fn update_sand(&mut self, grid: &mut Grid, x: usize, y: usize);

    fn update_water(&mut self, grid: &mut Grid, x: usize, y: usize);

    fn update_acid(&mut self, grid: &mut Grid, x: usize, y: usize);

    fn update_replicator(&mut self, grid: &mut Grid, x: usize, y: usize);

    fn update_plant(&mut self, grid: &mut Grid, x: usize, y: usize);

    fn update_cryotheum(&mut self, grid: &mut Grid, x: usize, y: usize);

    fn update_unstable(&mut self, grid: &mut Grid, x: usize, y: usize);

    fn update_electricity(&mut self, grid: &mut Grid, x: usize, y: usize);
}

/// The generation that follows `g`: it counts up and wraps from 255 to 1,
/// so that 0 keeps meaning "never handled".
pub open spec fn spec_next_generation(g: u8) -> u8 {
    if g == 255 {
        1
    } else {
        (g + 1) as u8
    }
}

/// The generation that follows `g`.
pub fn next_generation(g: u8) -> (n: u8)
    ensures
        n == spec_next_generation(g),
{
    if g == 255 {
        1
    } else {
        g + 1
    }
}

/// Whether a pass of generation `g` dispatches the cell `c`.
pub open spec fn is_due_cell(c: Option<Particle>, g: u8) -> bool {
    match c {
        Some(p) => p.stamp() != g,
        None => false,
    }
}

/// `g` with every particle stamped with generation `n`.
pub open spec fn stamped_all(g: Seq<Option<Particle>>, n: u8) -> Seq<Option<Particle>> {
    Seq::new(
        g.len(),
        |i: int|
            match g[i] {
                Some(p) => Some(p.spec_stamped(n)),
                None => None,
            },
    )
}

/// Whether every particle of `g` is stationary, so that the movement pass
/// calls no hook.
pub open spec fn all_stationary(g: Seq<Option<Particle>>) -> bool {
    forall|i: int|
        0 <= i < g.len() && (#[trigger] g[i]) is Some ==> spec_movement_of(g[i]->0)
            == Movement::Stationary
}

/// Whether no particle of `g` has a reaction hook, so that the interaction
/// pass calls none.
pub open spec fn no_reaction_hooks(g: Seq<Option<Particle>>) -> bool {
    forall|i: int| 0 <= i < g.len() && (#[trigger] g[i]) is Some ==> spec_reaction_of(g[i]->0.ptype) is None
}

/// Whether a step over `g` calls no hook at all.
pub open spec fn no_hooks(g: Seq<Option<Particle>>) -> bool {
    all_stationary(g) && no_reaction_hooks(g)
}

/// The simulation state: the grid and the generation of the current pass.
pub struct Sandbox {
    pub cells: Grid,
    /// The generation of the pass that ran last; never 0 once a pass ran.
    pub update_counter: u8,
}

impl Sandbox {
    /// An empty simulation.
    pub fn new() -> (s: Sandbox)
        ensures
            all_empty(s.cells@),
            s.cells@.len() == CELL_COUNT,
            s.update_counter == 1,
    {
        Sandbox { cells: Grid::empty(), update_counter: 1 }
    }

    /// Closes a movement step at the position `(nx, ny)` a strategy reported:
    /// when it lies on the grid and holds a particle, that particle is stamped
    /// with the current generation and the position returned; otherwise the
    /// grid is left alone and `None` returned.
    pub fn settle_at(&mut self, nx: usize, ny: usize) -> (r: Option<(usize, usize)>)
        ensures
            final(self).update_counter == old(self).update_counter,
            old(self).cells@.len() == CELL_COUNT,
            if in_bounds(nx as int, ny as int) && old(self).cells@[index_of(
                nx as int,
                ny as int,
            )] is Some {
                &&& r == Some((nx, ny))
                &&& final(self).cells@ == old(self).cells@.update(
                    index_of(nx as int, ny as int),
                    Some(
                        old(self).cells@[index_of(nx as int, ny as int)]->0.spec_stamped(
                            old(self).update_counter,
                        ),
                    ),
                )
            } else {
                &&& r is None
                &&& final(self).cells@ == old(self).cells@
            },
    {
        if self.cells.len() != CELL_COUNT || nx >= SIMULATION_WIDTH || ny >= SIMULATION_HEIGHT {
            return None;
        }
        match self.cells.get(nx, ny) {
            None => None,
            Some(q) => {
                self.cells.set(nx, ny, Some(q.stamped(self.update_counter)));
                Some((nx, ny))
            },
        }
    }

    /// Movement step for the cell `(x, y)`. A particle there that the current
    /// pass has not handled yet is handed to its movement strategy (a
    /// stationary one stays), and `settle_at` closes the step at the position
    /// the strategy reports. An empty or already handled cell is left alone
    /// and `None` returned.
    pub fn move_cell<B: Behavior>(&mut self, behavior: &mut B, x: usize, y: usize) -> (r: Option<
        (usize, usize),
    >)
        requires
            in_bounds(x as int, y as int),
        ensures
            final(self).update_counter == old(self).update_counter,
            old(self).cells@.len() == CELL_COUNT,
            ({
                let c = old(self).cells@[index_of(x as int, y as int)];
                let g = old(self).update_counter;
                if !is_due_cell(c, g) {
                    r is None && final(self).cells@ == old(self).cells@
                } else if spec_movement_of(c->0) == Movement::Stationary {
                    &&& r == Some((x, y))
                    &&& final(self).cells@ == old(self).cells@.update(
                        index_of(x as int, y as int),
                        Some(c->0.spec_stamped(g)),
                    )
                } else {
                    r matches Some((nx, ny)) ==> {
                        &&& in_bounds(nx as int, ny as int)
                        &&& final(self).cells@[index_of(nx as int, ny as int)] is Some
                        &&& final(self).cells@[index_of(nx as int, ny as int)]->0.stamp() == g
                    }
                }
            }),
    {
        let generation = self.update_counter;
        let p = match self.cells.get(x, y) {
            None => {
                return None;
            },
            Some(p) => p,
        };
        if !p.is_due(generation) {
            return None;
        }
        let (nx, ny) = match movement_of(&p) {
            Movement::Powder => behavior.move_powder(&mut self.cells, x, y),
            Movement::Solid => behavior.move_solid(&mut self.cells, x, y),
            Movement::Liquid => behavior.move_liquid(&mut self.cells, x, y),
            Movement::Electric => behavior.move_electricity(&mut self.cells, x, y),
            Movement::Stationary => (x, y),
        };
        let r = self.settle_at(nx, ny);
        proof {
            if r is Some {
                assert(self.cells@[index_of(nx as int, ny as int)] is Some);
            }
        }
        r
    }

    /// Interaction step for the cell `(x, y)`: a particle there that the
    /// current pass has not handled yet and whose kind has a reaction hook is
    /// handed to it. Returns whether a hook ran; when none did, the grid is
    /// unchanged.
    pub fn react_cell<B: Behavior>(&mut self, behavior: &mut B, x: usize, y: usize) -> (r: bool)
        requires
            in_bounds(x as int, y as int),
        ensures
            final(self).update_counter == old(self).update_counter,
            old(self).cells@.len() == CELL_COUNT,
            ({
                let c = old(self).cells@[index_of(x as int, y as int)];
                r == (is_due_cell(c, old(self).update_counter) && spec_reaction_of(c->0.ptype) is Some)
            }),
            !r ==> final(self).cells@ == old(self).cells@,
    {
        let generation = self.update_counter;
        let p = match self.cells.get(x, y) {
            None => {
                return false;
            },
            Some(p) => p,
        };
        if !p.is_due(generation) {
            return false;
        }
        match reaction_of(p.ptype) {
            None => false,
            Some(Reaction::Sand) => {
                behavior.update_sand(&mut self.cells, x, y);
                true
            },
            Some(Reaction::Water) => {
                behavior.update_water(&mut self.cells, x, y);
                true
            },
            Some(Reaction::Acid) => {
                behavior.update_acid(&mut self.cells, x, y);
                true
            },
            Some(Reaction::Replicator) => {
                behavior.update_replicator(&mut self.cells, x, y);
                true
            },
            Some(Reaction::Plant) => {
                behavior.update_plant(&mut self.cells, x, y);
                true
            },
            Some(Reaction::Cryotheum) => {
                behavior.update_cryotheum(&mut self.cells, x, y);
                true
            },
            Some(Reaction::Unstable) => {
                behavior.update_unstable(&mut self.cells, x, y);
                true
            },
            Some(Reaction::Electricity) => {
                behavior.update_electricity(&mut self.cells, x, y);
                true
            },
        }
    }

    /// The movement pass: advances the generation, then hands every cell,
    /// x-major, to `move_cell`. When every particle is stationary no hook
    /// runs and the pass only stamps each particle with the new generation.
    pub fn move_pass<B: Behavior>(&mut self, behavior: &mut B)
        ensures
            final(self).update_counter == spec_next_generation(old(self).update_counter),
            all_empty(old(self).cells@) ==> final(self).cells@ == old(self).cells@,
            all_stationary(old(self).cells@) ==> final(self).cells@ == stamped_all(
                old(self).cells@,
                spec_next_generation(old(self).update_counter),
            ),
    {
        let ghost start = self.cells@;
        self.update_counter = next_generation(self.update_counter);
        let mut i: usize = 0;
        while i < CELL_COUNT
            invariant
                i <= CELL_COUNT,
                self.update_counter == spec_next_generation(old(self).update_counter),
                all_empty(old(self).cells@) ==> self.cells@ == old(self).cells@,
                start == old(self).cells@,
                i == 0 ==> self.cells@ == start,
                all_stationary(start) && i > 0 ==> {
                    &&& self.cells@.len() == CELL_COUNT
                    &&& start.len() == CELL_COUNT
                    &&& forall|j: int|
                        0 <= j < i ==> #[trigger] self.cells@[j] == stamped_all(
                            start,
                            self.update_counter,
                        )[j]
                    &&& forall|j: int| i <= j < CELL_COUNT ==> #[trigger] self.cells@[j] == start[j]
                },
            decreases CELL_COUNT - i,
        {
            let x: usize = i / SIMULATION_HEIGHT;
            let y: usize = i % SIMULATION_HEIGHT;
            assert(index_of(x as int, y as int) == i);
            let ghost before = self.cells@;
            self.move_cell(behavior, x, y);
            proof {
                if all_stationary(start) {
                    assert(before.len() == CELL_COUNT);
                    assert(start.len() == CELL_COUNT);
                    let c = start[i as int];
                    if c is Some {
                        let p = c->0;
                        assert(spec_movement_of(p) == Movement::Stationary);
                        if p.stamp() == self.update_counter {
                            assert(p.spec_stamped(self.update_counter) == p);
                        }
                    }
                }
            }
            i = i + 1;
        }
        proof {
            if all_stationary(start) {
                assert(self.cells@ =~= stamped_all(start, self.update_counter));
                assert(self.cells@ == stamped_all(start, self.update_counter));
            }
        }
    }

    /// The interaction pass: advances the generation, then hands every cell,
    /// x-major, to `react_cell`. When no particle has a reaction hook the
    /// grid stays as it was.
    pub fn react_pass<B: Behavior>(&mut self, behavior: &mut B)
        ensures
            final(self).update_counter == spec_next_generation(old(self).update_counter),
            all_empty(old(self).cells@) ==> final(self).cells@ == old(self).cells@,
            no_reaction_hooks(old(self).cells@) ==> final(self).cells@ == old(self).cells@,
    {
        self.update_counter = next_generation(self.update_counter);
        let mut i: usize = 0;
        while i < CELL_COUNT
            invariant
                i <= CELL_COUNT,
                self.update_counter == spec_next_generation(old(self).update_counter),
                all_empty(old(self).cells@) ==> self.cells@ == old(self).cells@,
                no_reaction_hooks(old(self).cells@) ==> self.cells@ == old(self).cells@,
            decreases CELL_COUNT - i,
        {
            let x: usize = i / SIMULATION_HEIGHT;
            let y: usize = i % SIMULATION_HEIGHT;
            assert(index_of(x as int, y as int) == i);
            self.react_cell(behavior, x, y);
            i = i + 1;
        }
    }

    /// One simulation step: the movement pass, then heat diffusion, then the
    /// interaction pass. On a grid whose particles call no hook the result is
    /// fixed: every particle stamped with the movement pass's generation, then
    /// diffused. An empty grid stays as it was.
    pub fn update<B: Behavior>(&mut self, behavior: &mut B)
        ensures
            final(self).update_counter == spec_next_generation(
                spec_next_generation(old(self).update_counter),
            ),
            all_empty(old(self).cells@) ==> final(self).cells@ == old(self).cells@,
            no_hooks(old(self).cells@) ==> final(self).cells@ == diffused(
                stamped_all(old(self).cells@, spec_next_generation(old(self).update_counter)),
            ),
    {
        self.move_pass(behavior);
        let ghost moved = self.cells@;
        diffuse(&mut self.cells);
        proof {
            if all_empty(old(self).cells@) {
                assert(diffused(moved) =~= moved);
            }
            if no_hooks(old(self).cells@) {
                let d = diffused(moved);
                assert forall|i: int| 0 <= i < d.len() && (#[trigger] d[i]) is Some implies spec_reaction_of(
                    d[i]->0.ptype,
                ) is None by {
                    assert(moved[i] is Some);
                    assert(old(self).cells@[i] is Some);
                }
            }
        }
        self.react_pass(behavior);
    }
}

/// No particle is handed on twice in one pass: once a pass of generation
/// `g` has handled a particle it carries `g` and is no longer due in that
/// pass. The next pass runs under a fresh generation, never 0, so the
/// particle is due there again, and a particle never handled (stamp 0) is due
/// in every pass.
pub proof fn lemma_handled_once_per_pass(p: Particle, g: u8)
    requires
        g != 0,
    ensures
        !is_due_cell(Some(p.spec_stamped(g)), g),
        is_due_cell(Some(p.spec_stamped(g)), spec_next_generation(g)),
        spec_next_generation(g) != 0,
        p.stamp() == 0 ==> is_due_cell(Some(p), g),
{
}

} // verus!
