use sandbox::grid::{Grid, CELL_COUNT, SIMULATION_HEIGHT, SIMULATION_WIDTH};
use sandbox::particle::{Particle, ParticleType, PLANT_STAGE_HIGH, PLANT_STAGE_LOW};
use sandbox::render::{clamp, noise_intensities, noise_intensity, pixel_color};
use sandbox::sandbox::{
    movement_of, next_generation, reaction_of, Behavior, Movement, Reaction, Sandbox,
};
use sandbox::thermal::{diffuse, heat_flow, thermal_conductivity};

const ALL_TYPES: [ParticleType; 11] = [
    ParticleType::Sand,
    ParticleType::WetSand,
    ParticleType::Water,
    ParticleType::Acid,
    ParticleType::Iridium,
    ParticleType::Replicator,
    ParticleType::Plant,
    ParticleType::Cryotheum,
    ParticleType::Unstable,
    ParticleType::Electricity,
    ParticleType::Glass,
];

/// Powder falls one cell when the cell below is free; everything else stays.
/// Counts every hook call.
#[derive(Default)]
struct Falling {
    moves: usize,
    reactions: usize,
}

impl Falling {
    fn fall(&mut self, grid: &mut Grid, x: usize, y: usize) -> (usize, usize) {
        self.moves += 1;
        if y + 1 < SIMULATION_HEIGHT && grid.get(x, y + 1).is_none() {
            grid.move_particle(x, y, x, y + 1);
            (x, y + 1)
        } else {
            (x, y)
        }
    }

    fn stay(&mut self, x: usize, y: usize) -> (usize, usize) {
        self.moves += 1;
        (x, y)
    }
}

impl Behavior for Falling {
    fn move_powder(&mut self, grid: &mut Grid, x: usize, y: usize) -> (usize, usize) {
        self.fall(grid, x, y)
    }
    fn move_solid(&mut self, _grid: &mut Grid, x: usize, y: usize) -> (usize, usize) {
        self.stay(x, y)
    }
    fn move_liquid(&mut self, grid: &mut Grid, x: usize, y: usize) -> (usize, usize) {
        self.fall(grid, x, y)
    }
    fn move_electricity(&mut self, _grid: &mut Grid, x: usize, y: usize) -> (usize, usize) {
        self.stay(x, y)
    }
    fn update_sand(&mut self, _grid: &mut Grid, _x: usize, _y: usize) {
        self.reactions += 1;
    }
    fn update_water(&mut self, _grid: &mut Grid, _x: usize, _y: usize) {
        self.reactions += 1;
    }
    fn update_acid(&mut self, _grid: &mut Grid, _x: usize, _y: usize) {
        self.reactions += 1;
    }
    fn update_replicator(&mut self, _grid: &mut Grid, _x: usize, _y: usize) {
        self.reactions += 1;
    }
    fn update_plant(&mut self, _grid: &mut Grid, _x: usize, _y: usize) {
        self.reactions += 1;
    }
    fn update_cryotheum(&mut self, _grid: &mut Grid, _x: usize, _y: usize) {
        self.reactions += 1;
    }
    fn update_unstable(&mut self, _grid: &mut Grid, _x: usize, _y: usize) {
        self.reactions += 1;
    }
    fn update_electricity(&mut self, _grid: &mut Grid, _x: usize, _y: usize) {
        self.reactions += 1;
    }
}

fn with_temperature(ptype: ParticleType, temperature: i16) -> Particle {
    let mut p = Particle::seeded(ptype, 0);
    p.temperature = temperature;
    p
}

fn frame() -> Vec<u8> {
    vec![7u8; 4 * CELL_COUNT]
}

fn pixel(frame: &[u8], x: usize, y: usize) -> (u8, u8, u8, u8) {
    let k = 4 * (y * SIMULATION_WIDTH + x);
    (frame[k], frame[k + 1], frame[k + 2], frame[k + 3])
}

#[test]
fn new_particles_start_at_their_kind_defaults() {
    let water = Particle::new(ParticleType::Water);
    assert_eq!(water.temperature, -10);
    assert_eq!(water.extra_data1, 0);
    assert_eq!(water.extra_data2, 0);
    assert_eq!(water.last_update, 0);
    assert_eq!(Particle::new(ParticleType::WetSand).temperature, -5);
    assert_eq!(Particle::new(ParticleType::Cryotheum).temperature, -60);
    assert_eq!(Particle::new(ParticleType::Sand).temperature, 0);
    assert_eq!(Particle::new(ParticleType::Glass).extra_data1, 0);
}

#[test]
fn plants_draw_a_random_growth_stage_in_range() {
    let mut seen = Vec::new();
    for _ in 0..200 {
        let p = Particle::new(ParticleType::Plant);
        assert!(p.extra_data1 >= PLANT_STAGE_LOW && p.extra_data1 < PLANT_STAGE_HIGH);
        assert_eq!(p.temperature, 0);
        if !seen.contains(&p.extra_data1) {
            seen.push(p.extra_data1);
        }
    }
    assert!(seen.len() > 1);
}

#[test]
fn seeded_uses_the_stage_only_for_plants() {
    assert_eq!(Particle::seeded(ParticleType::Plant, 9).extra_data1, 9);
    assert_eq!(Particle::seeded(ParticleType::Sand, 9).extra_data1, 0);
    assert_eq!(Particle::seeded(ParticleType::Water, 9).temperature, -10);
}

#[test]
fn conductivity_is_above_one_for_every_kind() {
    for t in ALL_TYPES {
        assert!(thermal_conductivity(t) > 1);
    }
    assert_eq!(thermal_conductivity(ParticleType::Iridium), 8);
    assert_eq!(thermal_conductivity(ParticleType::Water), 5);
    assert_eq!(thermal_conductivity(ParticleType::Acid), 2);
}

#[test]
fn heat_flow_truncates_towards_zero() {
    let water = with_temperature(ParticleType::Water, -10);
    assert_eq!(heat_flow(water, water), -1);
    let cold = with_temperature(ParticleType::Water, -9);
    assert_eq!(heat_flow(cold, water), 0);
    let hot = with_temperature(ParticleType::Sand, 100);
    assert_eq!(heat_flow(hot, hot), 16);
    let frozen = with_temperature(ParticleType::Sand, -100);
    assert_eq!(heat_flow(frozen, frozen), -16);
}

#[test]
fn isolated_pair_exchanges_one_flow() {
    let mut grid = Grid::empty();
    grid.set(3, 4, Some(with_temperature(ParticleType::Sand, 100)));
    grid.set(3, 5, Some(with_temperature(ParticleType::Sand, 0)));
    diffuse(&mut grid);
    assert_eq!(grid.get(3, 4).unwrap().temperature, 84);
    assert_eq!(grid.get(3, 5).unwrap().temperature, 16);
}

#[test]
fn isolated_pair_exchanges_negative_flow() {
    let mut grid = Grid::empty();
    grid.set(7, 2, Some(with_temperature(ParticleType::Sand, -100)));
    grid.set(8, 2, Some(with_temperature(ParticleType::Sand, 3)));
    diffuse(&mut grid);
    assert_eq!(grid.get(7, 2).unwrap().temperature, -84);
    assert_eq!(grid.get(8, 2).unwrap().temperature, -13);
}

#[test]
fn two_cold_waters_exchange_in_both_directions() {
    let mut grid = Grid::empty();
    grid.set(0, 0, Some(with_temperature(ParticleType::Water, -10)));
    grid.set(0, 1, Some(with_temperature(ParticleType::Water, -10)));
    diffuse(&mut grid);
    assert_eq!(grid.get(0, 0).unwrap().temperature, -10);
    assert_eq!(grid.get(0, 1).unwrap().temperature, -10);
}

#[test]
fn diffusion_reads_the_grid_before_the_pass() {
    let mut grid = Grid::empty();
    grid.set(10, 10, Some(with_temperature(ParticleType::Acid, 40)));
    grid.set(10, 11, Some(with_temperature(ParticleType::Acid, 0)));
    grid.set(10, 12, Some(with_temperature(ParticleType::Acid, 0)));
    diffuse(&mut grid);
    assert_eq!(grid.get(10, 10).unwrap().temperature, 30);
    assert_eq!(grid.get(10, 11).unwrap().temperature, 10);
    assert_eq!(grid.get(10, 12).unwrap().temperature, 0);
}

#[test]
fn diffusion_saturates_instead_of_wrapping() {
    let mut grid = Grid::empty();
    grid.set(1, 1, Some(with_temperature(ParticleType::Acid, i16::MAX)));
    grid.set(1, 2, Some(with_temperature(ParticleType::Acid, i16::MAX)));
    grid.set(0, 2, Some(with_temperature(ParticleType::Acid, i16::MAX)));
    grid.set(2, 2, Some(with_temperature(ParticleType::Acid, i16::MAX)));
    grid.set(1, 3, Some(with_temperature(ParticleType::Acid, i16::MAX)));
    diffuse(&mut grid);
    assert_eq!(grid.get(1, 2).unwrap().temperature, i16::MAX);
}

#[test]
fn moving_a_particle_empties_its_source() {
    let mut grid = Grid::empty();
    let p = Particle::new(ParticleType::Sand);
    grid.set(5, 5, Some(p));
    grid.move_particle(5, 5, 6, 9);
    assert!(grid.get(5, 5).is_none());
    assert_eq!(grid.get(6, 9), Some(p));
    grid.move_particle(6, 9, 6, 9);
    assert_eq!(grid.get(6, 9), Some(p));
}

#[test]
fn movement_strategy_follows_kind_and_state() {
    assert_eq!(movement_of(&Particle::new(ParticleType::Sand)), Movement::Powder);
    assert_eq!(movement_of(&Particle::new(ParticleType::Water)), Movement::Liquid);
    assert_eq!(movement_of(&Particle::new(ParticleType::Iridium)), Movement::Stationary);
    assert_eq!(movement_of(&Particle::new(ParticleType::Electricity)), Movement::Electric);
    assert_eq!(movement_of(&with_temperature(ParticleType::Glass, 30)), Movement::Liquid);
    assert_eq!(movement_of(&with_temperature(ParticleType::Glass, 29)), Movement::Solid);
    let mut plant = Particle::seeded(ParticleType::Plant, 7);
    assert_eq!(movement_of(&plant), Movement::Powder);
    plant.extra_data2 = 1;
    assert_eq!(movement_of(&plant), Movement::Stationary);
}

#[test]
fn reaction_hooks_follow_kind() {
    assert_eq!(reaction_of(ParticleType::Acid), Some(Reaction::Acid));
    assert_eq!(reaction_of(ParticleType::Plant), Some(Reaction::Plant));
    assert_eq!(reaction_of(ParticleType::WetSand), None);
    assert_eq!(reaction_of(ParticleType::Iridium), None);
    assert_eq!(reaction_of(ParticleType::Glass), None);
}

#[test]
fn generation_wraps_past_zero() {
    assert_eq!(next_generation(1), 2);
    assert_eq!(next_generation(254), 255);
    assert_eq!(next_generation(255), 1);
}

#[test]
fn update_advances_the_generation_twice() {
    let mut s = Sandbox::new();
    assert_eq!(s.update_counter, 1);
    s.update(&mut Falling::default());
    assert_eq!(s.update_counter, 3);
    s.update_counter = 254;
    s.update(&mut Falling::default());
    assert_eq!(s.update_counter, 1);
}

#[test]
fn a_falling_particle_moves_once_per_step() {
    let mut s = Sandbox::new();
    s.cells.set(4, 0, Some(Particle::new(ParticleType::Sand)));
    let mut b = Falling::default();
    s.update(&mut b);
    assert_eq!(b.moves, 1);
    assert!(s.cells.get(4, 0).is_none());
    assert_eq!(s.cells.get(4, 1).unwrap().ptype, ParticleType::Sand);
    s.update(&mut b);
    assert_eq!(b.moves, 2);
    assert_eq!(s.cells.get(4, 2).unwrap().ptype, ParticleType::Sand);
}

#[test]
fn each_reaction_fires_once_per_step() {
    let mut s = Sandbox::new();
    s.cells.set(1, 1, Some(Particle::new(ParticleType::Water)));
    s.cells.set(2, 1, Some(Particle::new(ParticleType::Iridium)));
    s.cells.set(3, 1, Some(Particle::new(ParticleType::Acid)));
    let mut b = Falling::default();
    s.update(&mut b);
    assert_eq!(b.reactions, 2);
}

#[test]
fn move_cell_skips_a_handled_particle() {
    let mut s = Sandbox::new();
    s.cells.set(0, 0, Some(Particle::new(ParticleType::Iridium)));
    let mut b = Falling::default();
    assert_eq!(s.move_cell(&mut b, 0, 0), Some((0, 0)));
    assert_eq!(s.cells.get(0, 0).unwrap().last_update, s.update_counter);
    assert_eq!(s.move_cell(&mut b, 0, 0), None);
    assert_eq!(s.move_cell(&mut b, 9, 9), None);
}

#[test]
fn react_cell_reports_whether_a_hook_ran() {
    let mut s = Sandbox::new();
    s.cells.set(0, 0, Some(Particle::new(ParticleType::Sand)));
    s.cells.set(0, 1, Some(Particle::new(ParticleType::Glass)));
    let mut b = Falling::default();
    assert!(s.react_cell(&mut b, 0, 0));
    assert!(!s.react_cell(&mut b, 0, 1));
    assert!(!s.react_cell(&mut b, 5, 5));
    assert_eq!(b.reactions, 1);
}

#[test]
fn empty_grid_is_left_unchanged_by_update() {
    let mut s = Sandbox::new();
    s.update(&mut Falling::default());
    for x in 0..SIMULATION_WIDTH {
        for y in 0..SIMULATION_HEIGHT {
            assert!(s.cells.get(x, y).is_none());
        }
    }
}

#[test]
fn empty_grid_renders_uniform_grey() {
    let s = Sandbox::new();
    let mut f = frame();
    s.render(&mut f, &vec![0i16; CELL_COUNT]);
    for px in f.chunks(4) {
        assert_eq!(px, &[20, 20, 20, 255]);
    }
}

#[test]
fn sand_at_the_bottom_stays_on_the_grid() {
    let mut s = Sandbox::new();
    s.cells.set(0, SIMULATION_HEIGHT - 1, Some(Particle::new(ParticleType::Sand)));
    s.update(&mut Falling::default());
    assert_eq!(s.cells.get(0, SIMULATION_HEIGHT - 1).unwrap().ptype, ParticleType::Sand);
}

#[test]
fn render_writes_opaque_pixels_and_nothing_past_them() {
    let mut s = Sandbox::new();
    s.cells.set(5, 1, Some(Particle::new(ParticleType::Water)));
    s.cells.set(0, 0, Some(with_temperature(ParticleType::Electricity, 40)));
    let mut f = vec![7u8; 4 * CELL_COUNT + 8];
    s.render(&mut f, &vec![3i16; CELL_COUNT]);
    assert_eq!(f.len(), 4 * CELL_COUNT + 8);
    for k in 0..CELL_COUNT {
        assert_eq!(f[4 * k + 3], 255);
    }
    assert_eq!(&f[4 * CELL_COUNT..], &[7u8; 8]);
    assert_eq!(pixel(&f, 5, 1), (11, 133, 214, 255));
    assert_eq!(pixel(&f, 0, 0), (255, 247, 52, 255));
    assert_eq!(pixel(&f, 1, 5), (20, 20, 20, 255));
}

#[test]
fn hot_particle_saturates_red() {
    let hot = with_temperature(ParticleType::Sand, 1000);
    assert_eq!(pixel_color(Some(hot), 0), (255, 192, 135));
    let mut s = Sandbox::new();
    s.cells.set(2, 3, Some(hot));
    let mut f = frame();
    s.render(&mut f, &vec![0i16; CELL_COUNT]);
    assert_eq!(pixel(&f, 2, 3).0, 255);
}

#[test]
fn cold_particle_tints_blue() {
    let water = Particle::new(ParticleType::Water);
    assert_eq!(pixel_color(Some(water), 0), (8, 130, 211));
    let frozen = with_temperature(ParticleType::Cryotheum, -1000);
    assert_eq!(pixel_color(Some(frozen), 0), (12, 191, 255));
    let coldest = with_temperature(ParticleType::Iridium, i16::MIN);
    assert_eq!(pixel_color(Some(coldest), 0), (205, 210, 255));
}

#[test]
fn jitter_is_clamped_per_channel() {
    let sand = Particle::new(ParticleType::Sand);
    assert_eq!(pixel_color(Some(sand), 100), (255, 255, 235));
    assert_eq!(pixel_color(Some(sand), -150), (46, 42, 0));
    assert_eq!(pixel_color(Some(sand), i16::MIN), (0, 0, 0));
    let iridium = Particle::new(ParticleType::Iridium);
    assert_eq!(pixel_color(Some(iridium), 100), (205, 210, 211));
    assert_eq!(pixel_color(None, 100), (20, 20, 20));
}

#[test]
fn plant_colour_and_intensity_depend_on_stage() {
    let young = Particle::seeded(ParticleType::Plant, 1);
    let grown = Particle::seeded(ParticleType::Plant, 2);
    assert_eq!(pixel_color(Some(young), 0), (75, 209, 216));
    assert_eq!(pixel_color(Some(grown), 0), (86, 216, 143));
    assert_eq!(noise_intensity(&young), 10);
    assert_eq!(noise_intensity(&grown), 5);
}

#[test]
fn unstable_intensity_grows_with_heat() {
    assert_eq!(noise_intensity(&with_temperature(ParticleType::Unstable, 200)), 10);
    assert_eq!(noise_intensity(&with_temperature(ParticleType::Unstable, 39)), 1);
    assert_eq!(noise_intensity(&with_temperature(ParticleType::Unstable, -50)), 0);
    assert_eq!(noise_intensity(&Particle::new(ParticleType::Electricity)), 200);
    assert_eq!(noise_intensity(&Particle::new(ParticleType::Iridium)), 0);
}

#[test]
fn intensities_follow_pixel_order() {
    let mut grid = Grid::empty();
    grid.set(5, 1, Some(Particle::new(ParticleType::Acid)));
    let v = noise_intensities(&grid);
    assert_eq!(v.len(), CELL_COUNT);
    assert_eq!(v[SIMULATION_WIDTH + 5], 50);
    assert_eq!(v.iter().filter(|i| **i != 0).count(), 1);
}

#[test]
fn clamp_holds_values_to_the_range() {
    assert_eq!(clamp(-4, 0, 255), 0);
    assert_eq!(clamp(300, 0, 255), 255);
    assert_eq!(clamp(17, 0, 255), 17);
    assert_eq!(clamp(5, 5, 5), 5);
}

#[test]
fn two_iridium_particles_only_exchange_heat() {
    let mut s = Sandbox::new();
    s.cells.set(0, 0, Some(with_temperature(ParticleType::Iridium, -170)));
    s.cells.set(0, 1, Some(Particle::new(ParticleType::Iridium)));
    let mut b = Falling::default();
    s.update(&mut b);
    let top = s.cells.get(0, 0).unwrap();
    let bottom = s.cells.get(0, 1).unwrap();
    assert_eq!(top.ptype, ParticleType::Iridium);
    assert_eq!(bottom.ptype, ParticleType::Iridium);
    assert_eq!(top.temperature, -160);
    assert_eq!(bottom.temperature, -10);
    assert_eq!(top.last_update, 2);
    assert_eq!(b.moves + b.reactions, 0);
}

#[test]
fn settle_at_stamps_only_an_occupied_cell_on_the_grid() {
    let mut s = Sandbox::new();
    let p = Particle::new(ParticleType::Water);
    s.cells.set(3, 7, Some(p));
    assert_eq!(s.settle_at(3, 7), Some((3, 7)));
    assert_eq!(s.cells.get(3, 7), Some(p.stamped(s.update_counter)));
    assert_eq!(s.settle_at(3, 8), None);
    assert_eq!(s.settle_at(SIMULATION_WIDTH, 0), None);
    assert_eq!(s.settle_at(0, SIMULATION_HEIGHT), None);
    assert!(s.cells.get(3, 8).is_none());
}

#[test]
fn movement_pass_stamps_every_stationary_particle() {
    let mut s = Sandbox::new();
    s.cells.set(0, 0, Some(Particle::new(ParticleType::Replicator)));
    s.cells.set(599, 399, Some(Particle::new(ParticleType::Unstable)));
    let mut b = Falling::default();
    s.move_pass(&mut b);
    assert_eq!(s.update_counter, 2);
    assert_eq!(s.cells.get(0, 0).unwrap().last_update, 2);
    assert_eq!(s.cells.get(599, 399).unwrap().last_update, 2);
    assert_eq!(b.moves, 0);
}

#[test]
fn interaction_pass_leaves_hookless_kinds_alone() {
    let mut s = Sandbox::new();
    s.cells.set(1, 2, Some(Particle::new(ParticleType::WetSand)));
    s.cells.set(2, 2, Some(Particle::new(ParticleType::Glass)));
    let before = (s.cells.get(1, 2), s.cells.get(2, 2));
    let mut b = Falling::default();
    s.react_pass(&mut b);
    assert_eq!((s.cells.get(1, 2), s.cells.get(2, 2)), before);
    assert_eq!(b.reactions, 0);
}

#[test]
fn grid_has_a_fixed_cell_count() {
    assert_eq!(Grid::empty().len(), CELL_COUNT);
}
