//! Turning the grid into RGBA pixels: a palette colour per kind, a signed
//! noise jitter scaled per kind, and a temperature tint.
//!
//! Pixels are row-major over the `SIMULATION_WIDTH x SIMULATION_HEIGHT`
//! picture, while cells are stored x-major. The jitter of pixel `k` is the
//! `k`-th sample of the noise field scaled by `noise_intensity` of the
//! particle shown there; sampling the field is left to the caller.
use vstd::prelude::*;
use crate::grid::{Grid, index_of, CELL_COUNT, SIMULATION_HEIGHT, SIMULATION_WIDTH};
use crate::particle::{Particle, ParticleType};
use crate::sandbox::Sandbox;

verus! {

/// Grey level of an empty cell.
pub const EMPTY_SHADE: u8 = 20;

/// From this growth stage on a plant is drawn in its second colour.
pub const PLANT_MATURE_STAGE: i8 = 2;

/// Temperature step per unit of noise intensity of unstable matter.
pub const UNSTABLE_HEAT_PER_INTENSITY: i16 = 20;

/// `v` held to `[low, high]`.
pub open spec fn spec_clamp(v: int, low: int, high: int) -> int {
    if v < low {
        low
    } else if v > high {
        high
    } else {
        v
    }
}

/// `value` held to `[min, max]`.
pub fn clamp(value: i16, min: i16, max: i16) -> (r: i16)
    requires
        min <= max,
    ensures
        r as int == spec_clamp(value as int, min as int, max as int),
{
    let mut x = value;
    if x < min {
        x = min;
    }
    if x > max {
        x = max;
    }
    x
}

/// Palette colour of a particle.
pub open spec fn spec_base_color(p: Particle) -> (u8, u8, u8) {
    match p.ptype {
        ParticleType::Sand => (196, 192, 135),
        ParticleType::WetSand => (166, 162, 105),
        ParticleType::Water => (8, 130, 201),
        ParticleType::Acid => (128, 209, 0),
        ParticleType::Iridium => (205, 210, 211),
        ParticleType::Replicator => (68, 11, 67),
        ParticleType::Plant => if p.extra_data1 < PLANT_MATURE_STAGE {
            (75, 209, 216)
        } else {
            (86, 216, 143)
        },
        ParticleType::Cryotheum => (12, 191, 201),
        ParticleType::Unstable => (181, 158, 128),
        ParticleType::Electricity => (247, 244, 49),
        ParticleType::Glass => (159, 198, 197),
    }
}

/// The palette colour of `p`.
pub fn base_color(p: &Particle) -> (c: (u8, u8, u8))
    ensures
        c == spec_base_color(*p),
{
    match p.ptype {
        ParticleType::Sand => (196, 192, 135),
        ParticleType::WetSand => (166, 162, 105),
        ParticleType::Water => (8, 130, 201),
        ParticleType::Acid => (128, 209, 0),
        ParticleType::Iridium => (205, 210, 211),
        ParticleType::Replicator => (68, 11, 67),
        ParticleType::Plant => if p.extra_data1 < PLANT_MATURE_STAGE {
            (75, 209, 216)
        } else {
            (86, 216, 143)
        },
        ParticleType::Cryotheum => (12, 191, 201),
        ParticleType::Unstable => (181, 158, 128),
        ParticleType::Electricity => (247, 244, 49),
        ParticleType::Glass => (159, 198, 197),
    }
}

/// How strongly noise shades a particle: 0 for none, up to 200 for
/// electricity; unstable matter flickers more the hotter it is.
pub open spec fn spec_noise_intensity(p: Particle) -> int {
    match p.ptype {
        ParticleType::Sand => 10,
        ParticleType::WetSand => 10,
        ParticleType::Water => 30,
        ParticleType::Acid => 50,
        ParticleType::Iridium => 0,
        ParticleType::Replicator => 10,
        ParticleType::Plant => if p.extra_data1 < PLANT_MATURE_STAGE {
            10
        } else {
            5
        },
        ParticleType::Cryotheum => 10,
        ParticleType::Unstable => if p.temperature > 0 {
            p.temperature as int / (UNSTABLE_HEAT_PER_INTENSITY as int)
        } else {
            0
        },
        ParticleType::Electricity => 200,
        ParticleType::Glass => 50,
    }
}

/// The noise intensity of `p`.
pub fn noise_intensity(p: &Particle) -> (r: i16)
    ensures
        r as int == spec_noise_intensity(*p),
        0 <= r,
{
    match p.ptype {
        ParticleType::Sand => 10,
        ParticleType::WetSand => 10,
        ParticleType::Water => 30,
        ParticleType::Acid => 50,
        ParticleType::Iridium => 0,
        ParticleType::Replicator => 10,
        ParticleType::Plant => if p.extra_data1 < PLANT_MATURE_STAGE {
            10
        } else {
            5
        },
        ParticleType::Cryotheum => 10,
        ParticleType::Unstable => if p.temperature > 0 {
            p.temperature / UNSTABLE_HEAT_PER_INTENSITY
        } else {
            0
        },
        ParticleType::Electricity => 200,
        ParticleType::Glass => 50,
    }
}

/// Channel `c` shifted by `jitter`, held to `[0, 255]`.
pub open spec fn shade(c: u8, jitter: int) -> u8 {
    spec_clamp(c + jitter, 0, 255) as u8
}

/// `c + amount`, saturating at 255.
pub open spec fn brighten(c: u8, amount: int) -> u8 {
    if c + amount > 255 {
        255
    } else {
        (c + amount) as u8
    }
}

/// Colour `c` tinted by temperature `t`: cold adds up to 255 to blue, heat
/// up to 255 to red, saturating.
pub open spec fn tint(c: (u8, u8, u8), t: i16) -> (u8, u8, u8) {
    if t < 0 {
        (c.0, c.1, brighten(c.2, spec_clamp(-t, 0, 255)))
    } else {
        (brighten(c.0, spec_clamp(t as int, 0, 255)), c.1, c.2)
    }
}

/// Colour of a pixel that shows cell `cell`, with noise jitter `jitter`
/// (ignored for kinds whose noise intensity is 0).
pub open spec fn spec_pixel_color(cell: Option<Particle>, jitter: i16) -> (u8, u8, u8) {
    match cell {
        None => (EMPTY_SHADE, EMPTY_SHADE, EMPTY_SHADE),
        Some(p) => {
            let b = spec_base_color(p);
            let shaded = if spec_noise_intensity(p) != 0 {
                (shade(b.0, jitter as int), shade(b.1, jitter as int), shade(b.2, jitter as int))
            } else {
                b
            };
            tint(shaded, p.temperature)
        },
    }
}

fn shade_channel(c: u8, jitter: i16) -> (r: u8)
    ensures
        r == shade(c, jitter as int),
{
    let j = clamp(jitter, -255, 255);
    clamp(c as i16 + j, 0, 255) as u8
}

/// The colour of a pixel that shows `cell`, shifted by `jitter`.
pub fn pixel_color(cell: Option<Particle>, jitter: i16) -> (c: (u8, u8, u8))
    ensures
        c == spec_pixel_color(cell, jitter),
{
    match cell {
        None => (EMPTY_SHADE, EMPTY_SHADE, EMPTY_SHADE),
        Some(p) => {
            let mut color = base_color(&p);
            if noise_intensity(&p) != 0 {
                color =
                (
                    shade_channel(color.0, jitter),
                    shade_channel(color.1, jitter),
                    shade_channel(color.2, jitter),
                );
            }
            if p.temperature < 0 {
                let cold = -clamp(p.temperature, -255, 0);
                color.2 = color.2.saturating_add(cold as u8);
            } else {
                let heat = clamp(p.temperature, 0, 255);
                color.0 = color.0.saturating_add(heat as u8);
            }
            color
        },
    }
}

/// The cell that pixel `k` (row-major) shows.
pub open spec fn pixel_cell(g: Seq<Option<Particle>>, k: int) -> Option<Particle> {
    g[index_of(k % (SIMULATION_WIDTH as int), k / (SIMULATION_WIDTH as int))]
}

/// The four bytes of pixel `k` in `frame`.
pub open spec fn pixel_bytes(frame: Seq<u8>, k: int) -> (u8, u8, u8, u8) {
    (frame[4 * k], frame[4 * k + 1], frame[4 * k + 2], frame[4 * k + 3])
}

/// The RGBA bytes of a pixel of colour `c`: always opaque.
pub open spec fn opaque(c: (u8, u8, u8)) -> (u8, u8, u8, u8) {
    (c.0, c.1, c.2, 255)
}

/// The noise intensity that pixel `k` of `g` is drawn with: that of the
/// particle it shows, 0 for an empty cell.
pub open spec fn pixel_intensity(g: Seq<Option<Particle>>, k: int) -> int {
    match pixel_cell(g, k) {
        Some(p) => spec_noise_intensity(p),
        None => 0,
    }
}

fn pixel_index(k: usize) -> (i: usize)
    requires
        k < CELL_COUNT,
    ensures
        i as int == index_of(k as int % (SIMULATION_WIDTH as int), k as int / (SIMULATION_WIDTH as int)),
        i < CELL_COUNT,
{
    (k % SIMULATION_WIDTH) * SIMULATION_HEIGHT + k / SIMULATION_WIDTH
}

/// The noise intensity of every pixel of `grid`, row-major.
pub fn noise_intensities(grid: &Grid) -> (r: Vec<i16>)
    ensures
        r@.len() == CELL_COUNT,
        forall|k: int| 0 <= k < CELL_COUNT ==> r@[k] as int == pixel_intensity(grid@, k),
{
    let mut r: Vec<i16> = Vec::new();
    let mut k: usize = 0;
    while k < CELL_COUNT
        invariant
            k <= CELL_COUNT,
            r@.len() == k,
            forall|j: int| 0 <= j < k ==> r@[j] as int == pixel_intensity(grid@, j),
        decreases CELL_COUNT - k,
    {
        let v: i16 = match grid.at(pixel_index(k)) {
            Some(p) => noise_intensity(&p),
            None => 0,
        };
        r.push(v);
        k = k + 1;
    }
    r
}

/// Draws `grid` into the first `4 * CELL_COUNT` bytes of `frame`, one RGBA
/// pixel per cell, row-major, pixel `k` shifted by `jitter[k]`. Bytes past
/// the picture are left as they were.
pub fn render_grid(grid: &Grid, frame: &mut Vec<u8>, jitter: &Vec<i16>)
    requires
        old(frame)@.len() >= 4 * CELL_COUNT,
        jitter@.len() >= CELL_COUNT,
    ensures
        final(frame)@.len() == old(frame)@.len(),
        forall|k: int|
            0 <= k < CELL_COUNT ==> #[trigger] pixel_bytes(final(frame)@, k) == opaque(
                spec_pixel_color(pixel_cell(grid@, k), jitter@[k]),
            ),
        forall|k: int| 0 <= k < CELL_COUNT ==> #[trigger] final(frame)@[4 * k + 3] == 255,
        forall|j: int| 4 * CELL_COUNT <= j < old(frame)@.len() ==> final(frame)@[j] == old(frame)@[j],
{
    let mut k: usize = 0;
    while k < CELL_COUNT
        invariant
            k <= CELL_COUNT,
            jitter@.len() >= CELL_COUNT,
            frame@.len() == old(frame)@.len(),
            old(frame)@.len() >= 4 * CELL_COUNT,
            forall|j: int|
                0 <= j < k ==> #[trigger] pixel_bytes(frame@, j) == opaque(
                    spec_pixel_color(pixel_cell(grid@, j), jitter@[j]),
                ),
            forall|j: int| 4 * k <= j < frame@.len() ==> frame@[j] == old(frame)@[j],
        decreases CELL_COUNT - k,
    {
        let color = pixel_color(grid.at(pixel_index(k)), jitter[k]);
        let b: usize = 4 * k;
        let ghost before = frame@;
        frame.set(b, color.0);
        frame.set(b + 1, color.1);
        frame.set(b + 2, color.2);
        frame.set(b + 3, 255);
        assert forall|j: int| 0 <= j <= k implies #[trigger] pixel_bytes(frame@, j) == opaque(
            spec_pixel_color(pixel_cell(grid@, j), jitter@[j]),
        ) by {
            if j < k {
                assert(4 * j + 3 < b);
                assert(pixel_bytes(frame@, j) == pixel_bytes(before, j));
            }
        }
        k = k + 1;
    }
    assert forall|k: int| 0 <= k < CELL_COUNT implies #[trigger] frame@[4 * k + 3] == 255 by {
        assert(pixel_bytes(frame@, k).3 == 255);
    }
}

impl Sandbox {
    /// Draws the grid into `frame` as `render_grid` does.
    pub fn render(&self, frame: &mut Vec<u8>, jitter: &Vec<i16>)
        requires
            old(frame)@.len() >= 4 * CELL_COUNT,
            jitter@.len() >= CELL_COUNT,
        ensures
            final(frame)@.len() == old(frame)@.len(),
            forall|k: int|
                0 <= k < CELL_COUNT ==> #[trigger] pixel_bytes(final(frame)@, k) == opaque(
                    spec_pixel_color(pixel_cell(self.cells@, k), jitter@[k]),
                ),
            forall|k: int| 0 <= k < CELL_COUNT ==> #[trigger] final(frame)@[4 * k + 3] == 255,
            forall|j: int|
                4 * CELL_COUNT <= j < old(frame)@.len() ==> final(frame)@[j] == old(frame)@[j],
    {
        render_grid(&self.cells, frame, jitter);
    }
}

/// Heat saturates rather than wraps: a particle at 255 degrees or more is
/// drawn with a red channel of exactly 255, whatever its colour and jitter.
pub proof fn lemma_hot_red_saturates(p: Particle, jitter: i16)
    requires
        p.temperature >= 255,
    ensures
        spec_pixel_color(Some(p), jitter).0 == 255,
{
}

} // verus!
