//! Heat diffusion between axis-adjacent particles.
//!
//! Every occupied cell sends `t / (k_a + k_b)` (truncated towards zero) of
//! its temperature `t` to each occupied neighbour, where `k_a` and `k_b` are
//! the conductivities of the two kinds. All flows are computed from the grid
//! as it stood when the pass began, so the result does not depend on the
//! order of the sweep. A cell's new temperature is saturated to the `i16`
//! range, instead of wrapping, when the exchanged heat would leave it.
use vstd::prelude::*;
use crate::grid::{Grid, CELL_COUNT, SIMULATION_HEIGHT};
use crate::particle::{Particle, ParticleType};

verus! {

/// Thermal conductivity of a kind. Higher means slower transfer.
pub open spec fn conductivity(t: ParticleType) -> int {
    match t {
        ParticleType::Sand => 3,
        ParticleType::WetSand => 4,
        ParticleType::Water => 5,
        ParticleType::Acid => 2,
        ParticleType::Iridium => 8,
        ParticleType::Replicator => 3,
        ParticleType::Plant => 3,
        ParticleType::Cryotheum => 2,
        ParticleType::Unstable => 2,
        ParticleType::Electricity => 2,
        ParticleType::Glass => 3,
    }
}

/// The thermal conductivity of `ptype`; it is always above one, so the sum
/// of two never makes the flow formula divide by zero or one.
pub fn thermal_conductivity(ptype: ParticleType) -> (tc: i16)
    ensures
        tc as int == conductivity(ptype),
        tc > 1,
{
    match ptype {
        ParticleType::Sand => 3,
        ParticleType::WetSand => 4,
        ParticleType::Water => 5,
        ParticleType::Acid => 2,
        ParticleType::Iridium => 8,
        ParticleType::Replicator => 3,
        ParticleType::Plant => 3,
        ParticleType::Cryotheum => 2,
        ParticleType::Unstable => 2,
        ParticleType::Electricity => 2,
        ParticleType::Glass => 3,
    }
}

/// Integer division truncating towards zero, for a positive divisor.
pub open spec fn trunc_div(a: int, b: int) -> int {
    if a >= 0 {
        a / b
    } else {
        -((-a) / b)
    }
}

/// Heat that particle `from` hands to its neighbour `to` in one exchange.
pub open spec fn spec_heat_flow(from: Particle, to: Particle) -> int {
    trunc_div(from.temperature as int, conductivity(from.ptype) + conductivity(to.ptype))
}

proof fn lemma_trunc_div_bounds(a: int, b: int)
    requires
        b >= 1,
    ensures
        a >= 0 ==> 0 <= trunc_div(a, b) <= a,
        a < 0 ==> a <= trunc_div(a, b) <= 0,
        -b < a < b ==> trunc_div(a, b) == 0,
        b >= 4 && a >= 0 ==> 4 * trunc_div(a, b) <= a,
        b >= 4 && a < 0 ==> 4 * trunc_div(a, b) >= a,
{
    if b >= 4 {
        let c = if a >= 0 { a } else { -a };
        assert(4 * (c / b) <= c) by (nonlinear_arith)
            requires
                c >= 0,
                b >= 4,
        ;
    }
    if a >= 0 {
        assert(0 <= a / b <= a) by (nonlinear_arith)
            requires
                a >= 0,
                b >= 1,
        ;
        if a < b {
            assert(a / b == 0) by (nonlinear_arith)
                requires
                    0 <= a < b,
            ;
        }
    } else {
        assert(0 <= (-a) / b <= -a) by (nonlinear_arith)
            requires
                -a > 0,
                b >= 1,
        ;
        if -a < b {
            assert((-a) / b == 0) by (nonlinear_arith)
                requires
                    0 <= -a < b,
            ;
        }
    }
}

/// The heat that `from` hands to `to` in one exchange: its temperature
/// divided, truncating towards zero, by the two conductivities' sum.
pub fn heat_flow(from: Particle, to: Particle) -> (f: i16)
    ensures
        f as int == spec_heat_flow(from, to),
{
    let tc: i32 = thermal_conductivity(from.ptype) as i32 + thermal_conductivity(to.ptype) as i32;
    let t: i32 = from.temperature as i32;
    proof { lemma_trunc_div_bounds(t as int, tc as int); }
    let f: i32 = if t >= 0 {
        t / tc
    } else {
        -((-t) / tc)
    };
    f as i16
}

/// Heat flowing from cell `a` into cell `b`; nothing unless both hold a
/// particle.
pub open spec fn flow_between(a: Option<Particle>, b: Option<Particle>) -> int {
    match (a, b) {
        (Some(p), Some(q)) => spec_heat_flow(p, q),
        _ => 0,
    }
}

/// Net heat that cell `c` gains from its exchange with neighbour `n`.
#[verifier::opaque]
pub open spec fn exchange(c: Option<Particle>, n: Option<Particle>) -> int {
    flow_between(n, c) - flow_between(c, n)
}

/// The cell below position `i`, if any.
pub open spec fn below(g: Seq<Option<Particle>>, i: int) -> Option<Particle> {
    if i % (SIMULATION_HEIGHT as int) != SIMULATION_HEIGHT - 1 { g[i + 1] } else { None }
}

/// The cell above position `i`, if any.
pub open spec fn above(g: Seq<Option<Particle>>, i: int) -> Option<Particle> {
    if i % (SIMULATION_HEIGHT as int) != 0 { g[i - 1] } else { None }
}

/// The cell right of position `i`, if any.
pub open spec fn right_of(g: Seq<Option<Particle>>, i: int) -> Option<Particle> {
    if i + SIMULATION_HEIGHT < CELL_COUNT { g[i + SIMULATION_HEIGHT] } else { None }
}

/// The cell left of position `i`, if any.
pub open spec fn left_of(g: Seq<Option<Particle>>, i: int) -> Option<Particle> {
    if i >= SIMULATION_HEIGHT { g[i - SIMULATION_HEIGHT] } else { None }
}

/// Net heat that position `i` gains from its four neighbours in one pass.
pub open spec fn net_inflow(g: Seq<Option<Particle>>, i: int) -> int {
    exchange(g[i], below(g, i)) + exchange(g[i], right_of(g, i)) + exchange(g[i], above(g, i))
        + exchange(g[i], left_of(g, i))
}

/// `v` held to the `i16` range.
pub open spec fn saturate(v: int) -> i16 {
    if v < i16::MIN {
        i16::MIN
    } else if v > i16::MAX {
        i16::MAX
    } else {
        v as i16
    }
}

/// Position `i` after one diffusion pass over `g`.
pub open spec fn diffused_cell(g: Seq<Option<Particle>>, i: int) -> Option<Particle> {
    match g[i] {
        None => None,
        Some(p) => Some(Particle { temperature: saturate(p.temperature + net_inflow(g, i)), ..p }),
    }
}

/// The grid `g` after one diffusion pass.
pub open spec fn diffused(g: Seq<Option<Particle>>) -> Seq<Option<Particle>> {
    Seq::new(g.len(), |i: int| diffused_cell(g, i))
}

proof fn lemma_no_exchange_with_empty(c: Option<Particle>)
    ensures
        exchange(c, None) == 0,
{
    reveal(exchange);
}

fn exchange_with(snapshot: &Vec<Option<Particle>>, i: usize, j: usize) -> (d: i32)
    requires
        i < snapshot@.len(),
        j < snapshot@.len(),
    ensures
        d as int == exchange(snapshot@[i as int], snapshot@[j as int]),
        -70000 < d < 70000,
{
    reveal(exchange);
    match (snapshot[i], snapshot[j]) {
        (Some(p), Some(q)) => heat_flow(q, p) as i32 - heat_flow(p, q) as i32,
        _ => 0,
    }
}

fn saturate_exec(v: i32) -> (r: i16)
    ensures
        r == saturate(v as int),
{
    if v < i16::MIN as i32 {
        i16::MIN
    } else if v > i16::MAX as i32 {
        i16::MAX
    } else {
        v as i16
    }
}

fn inflow_at(snapshot: &Vec<Option<Particle>>, i: usize) -> (d: i32)
    requires
        snapshot@.len() == CELL_COUNT,
        i < CELL_COUNT,
    ensures
        d as int == net_inflow(snapshot@, i as int),
        -300000 < d < 300000,
{
    proof { lemma_no_exchange_with_empty(snapshot@[i as int]); }
    let mut d: i32 = 0;
    if i % SIMULATION_HEIGHT != SIMULATION_HEIGHT - 1 {
        d = exchange_with(snapshot, i, i + 1);
    }
    if i + SIMULATION_HEIGHT < CELL_COUNT {
        d = d + exchange_with(snapshot, i, i + SIMULATION_HEIGHT);
    }
    if i % SIMULATION_HEIGHT != 0 {
        d = d + exchange_with(snapshot, i, i - 1);
    }
    if i >= SIMULATION_HEIGHT {
        d = d + exchange_with(snapshot, i, i - SIMULATION_HEIGHT);
    }
    d
}

fn diffused_at(snapshot: &Vec<Option<Particle>>, i: usize) -> (c: Option<Particle>)
    requires
        snapshot@.len() == CELL_COUNT,
        i < CELL_COUNT,
    ensures
        c == diffused_cell(snapshot@, i as int),
{
    match snapshot[i] {
        None => None,
        Some(p) => {
            let d = inflow_at(snapshot, i);
            let t = saturate_exec(p.temperature as i32 + d);
            Some(Particle { temperature: t, ..p })
        },
    }
}

/// Exchanges heat between all axis-adjacent occupied cells of `grid`, with
/// every flow computed from the grid as it was before the pass.
pub fn diffuse(grid: &mut Grid)
    ensures
        final(grid)@ == diffused(old(grid)@),
{
    let snapshot = grid.snapshot();
    let mut i: usize = 0;
    while i < CELL_COUNT
        invariant
            i <= CELL_COUNT,
            snapshot@ == old(grid)@,
            snapshot@.len() == CELL_COUNT,
            grid@.len() == CELL_COUNT,
            forall|j: int| 0 <= j < i ==> grid@[j] == diffused_cell(snapshot@, j),
            forall|j: int| i <= j < CELL_COUNT ==> grid@[j] == snapshot@[j],
        decreases CELL_COUNT - i,
    {
        let c = diffused_at(&snapshot, i);
        grid.put(i, c);
        i = i + 1;
    }
    assert(grid@ =~= diffused(old(grid)@));
}

/// An isolated adjacent pair: when a grid holds exactly two particles, the
/// second directly below or right of the first, and the second one's own
/// flow truncates to zero (its temperature is smaller in magnitude than the
/// two conductivities' sum `tc`), one diffusion pass takes exactly the
/// first one's temperature divided by `tc`, truncated towards zero, from the
/// first and gives it to the second.
pub proof fn lemma_isolated_pair(g: Seq<Option<Particle>>, i: int, j: int)
    requires
        g.len() == CELL_COUNT,
        0 <= i < CELL_COUNT,
        0 <= j < CELL_COUNT,
        (j == i + 1 && i % (SIMULATION_HEIGHT as int) != SIMULATION_HEIGHT - 1) || j == i
            + SIMULATION_HEIGHT,
        g[i] is Some,
        g[j] is Some,
        forall|k: int| 0 <= k < CELL_COUNT && k != i && k != j ==> (#[trigger] g[k]) is None,
        -(conductivity(g[i]->0.ptype) + conductivity(g[j]->0.ptype)) < g[j]->0.temperature
            < conductivity(g[i]->0.ptype) + conductivity(g[j]->0.ptype),
    ensures
        ({
            let first = g[i]->0;
            let second = g[j]->0;
            let flow = trunc_div(
                first.temperature as int,
                conductivity(first.ptype) + conductivity(second.ptype),
            );
            &&& diffused(g)[i] == Some(
                Particle { temperature: (first.temperature - flow) as i16, ..first },
            )
            &&& diffused(g)[j] == Some(
                Particle { temperature: (second.temperature + flow) as i16, ..second },
            )
        }),
{
    reveal(exchange);
    let first = g[i]->0;
    let second = g[j]->0;
    let tc = conductivity(first.ptype) + conductivity(second.ptype);
    lemma_trunc_div_bounds(first.temperature as int, tc);
    lemma_trunc_div_bounds(second.temperature as int, tc);
    let flow = trunc_div(first.temperature as int, tc);
    assert(spec_heat_flow(second, first) == 0);
    assert(spec_heat_flow(first, second) == flow);
    if j == i + 1 {
        assert(j % (SIMULATION_HEIGHT as int) != 0);
        assert(above(g, j) == g[i]);
        assert(below(g, i) == g[j]);
    } else {
        assert(left_of(g, j) == g[i]);
        assert(right_of(g, i) == g[j]);
    }
    assert(net_inflow(g, i) == -flow);
    assert(net_inflow(g, j) == flow);
}

} // verus!
