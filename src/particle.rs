//! Particle kinds and the particles that occupy grid cells.
use vstd::prelude::*;
use rand::Rng;

verus! {

/// The kinds of matter a cell can hold.
#[derive(Clone, Copy, Debug, PartialEq, Eq, Structural)]
pub enum ParticleType {
    Sand,
    WetSand,
    Water,
    Acid,
    Iridium,
    Replicator,
    Plant,
    Cryotheum,
    Unstable,
    Electricity,
    Glass,
}

/// One particle. `extra_data1` and `extra_data2` belong to the per-kind
/// behaviours.
#[derive(Clone, Copy, Debug, PartialEq, Eq, Structural)]
pub struct Particle {
    pub ptype: ParticleType,
    pub temperature: i16,
    pub extra_data1: i8,
    pub extra_data2: i8,
    /// The generation in which the update pipeline last handled this
    /// particle (0: never). Behaviours leave it alone.
    pub last_update: u8,
}

/// Lowest growth stage a new plant can be seeded with.
pub const PLANT_STAGE_LOW: i8 = 5;

/// One past the highest growth stage a new plant can be seeded with.
pub const PLANT_STAGE_HIGH: i8 = 21;

/// Temperature a freshly created particle of kind `t` starts at.
pub open spec fn initial_temperature(t: ParticleType) -> int {
    match t {
        ParticleType::WetSand => -5,
        ParticleType::Water => -10,
        ParticleType::Cryotheum => -60,
        _ => 0,
    }
}

/// Relies on rand's `Rng::gen_range` on the thread-local generator: a value
/// in `[low, high)`; it panics when `low >= high`.
#[verifier::external_body]
fn random_in_range(low: i8, high: i8) -> (r: i8)
    requires
        low < high,
    ensures
        low <= r < high,
{
    rand::thread_rng().gen_range(low, high)
}

impl Particle {
    /// The generation in which the pipeline last handled this particle
    /// (0: never).
    pub open spec fn stamp(self) -> u8 {
        self.last_update
    }

    /// The particle `seeded(ptype, stage)` builds: default temperature,
    /// `stage` as a plant's growth stage, everything else zero.
    pub open spec fn spec_seeded(ptype: ParticleType, stage: i8) -> Particle {
        Particle {
            ptype,
            temperature: initial_temperature(ptype) as i16,
            extra_data1: if ptype == ParticleType::Plant { stage } else { 0 },
            extra_data2: 0,
            last_update: 0,
        }
    }

    /// A fresh particle of kind `ptype`; a plant gets `stage` as its growth
    /// stage, other kinds ignore it.
    pub fn seeded(ptype: ParticleType, stage: i8) -> (p: Particle)
        ensures
            p == Particle::spec_seeded(ptype, stage),
    {
        let temperature: i16 = match ptype {
            ParticleType::WetSand => -5,
            ParticleType::Water => -10,
            ParticleType::Cryotheum => -60,
            _ => 0,
        };
        let extra_data1: i8 = match ptype {
            ParticleType::Plant => stage,
            _ => 0,
        };
        Particle { ptype, temperature, extra_data1, extra_data2: 0, last_update: 0 }
    }

    /// A fresh particle of kind `ptype`. A plant draws its growth stage at
    /// random from `[PLANT_STAGE_LOW, PLANT_STAGE_HIGH)`.
    pub fn new(ptype: ParticleType) -> (p: Particle)
        ensures
            p.ptype == ptype,
            p.temperature == initial_temperature(ptype),
            p.extra_data2 == 0,
            p.stamp() == 0,
            ptype == ParticleType::Plant ==> PLANT_STAGE_LOW <= p.extra_data1 < PLANT_STAGE_HIGH,
            ptype != ParticleType::Plant ==> p.extra_data1 == 0,
    {
        let stage: i8 = match ptype {
            ParticleType::Plant => random_in_range(PLANT_STAGE_LOW, PLANT_STAGE_HIGH),
            _ => 0,
        };
        Particle::seeded(ptype, stage)
    }

    /// This particle marked as handled in generation `generation`.
    pub open spec fn spec_stamped(self, generation: u8) -> Particle {
        Particle { last_update: generation, ..self }
    }

    /// Marks this particle as handled in generation `generation`.
    pub fn stamped(self, generation: u8) -> (p: Particle)
        ensures
            p == self.spec_stamped(generation),
    {
        Particle { last_update: generation, ..self }
    }

    /// Whether a pass of generation `generation` still has to handle this
    /// particle.
    pub fn is_due(&self, generation: u8) -> (r: bool)
        ensures
            r == (self.stamp() != generation),
    {
        self.last_update != generation
    }
}

} // verus!
