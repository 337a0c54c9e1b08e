use flow_field::color::Color;
use flow_field::fixed::{Point2, HALF_TURN, UNIT};
use flow_field::flow_vector::{
    create_noise_flow_vectors, new_right_hand_curve_flow_vectors, noise_vectors,
    right_hand_curve_vectors, FieldError, FlowVectorFieldBuilder,
};
use flow_field::grid::{GridLayout, MAX_COORD};
use flow_field::lut_manager::{LutError, LutManager};
use flow_field::model::config::{count_cells, Config, ConfigError};
use flow_field::model::constants::{
    DEFAULT_AGING_RATE, DEFAULT_AUTO_SPAWN_PARTICLE_COUNT_LIMIT, DEFAULT_MAX_WEIGHT,
    DEFAULT_MIN_WEIGHT, DEFAULT_NOISE_SCALE, DEFAULT_OUTSIDE_BOUNDS_TIMEOUT,
    DEFAULT_PARTICLE_LIFETIME, DEFAULT_STEP_LENGTH, DEFAULT_VECTOR_MAGNITUDE,
    DEFAULT_VECTOR_SPACING, NOISE_OFFSET_LIMIT, NOISE_SEED_LIMIT,
};
use flow_field::model::enums::{Background, ParticleShape, RedrawBackground};
use flow_field::model::{nearest_angle_in_grid, Model, ModelError, SimpleRect, SpawnDraws};
use flow_field::trig::TrigTable;
use rand::rngs::StdRng;
use rand::SeedableRng;

fn circle(steps: usize) -> TrigTable {
    let mut entries = Vec::new();
    for i in 0..steps {
        let angle = (i as f64) * std::f64::consts::TAU / (steps as f64);
        entries.push(Point2 {
            x: (angle.cos() * 1_000_000.0).round() as i64,
            y: (angle.sin() * 1_000_000.0).round() as i64,
        });
    }
    TrigTable::new(entries).unwrap()
}

fn ramp() -> Vec<u8> {
    let mut bytes = Vec::new();
    for channel in 0..3usize {
        for i in 0..256usize {
            bytes.push((i as u8).wrapping_mul(channel as u8 + 1));
        }
    }
    bytes
}

fn luts() -> LutManager {
    let mut luts = LutManager::new();
    luts.insert("ramp", ramp()).unwrap();
    luts.insert("zero", vec![0u8; 768]).unwrap();
    luts
}

fn config() -> Config {
    Config {
        grid_width: 10,
        grid_height: 10,
        vector_spacing: 35 * UNIT,
        vector_magnitude: 15 * UNIT,
        noise_seed: 7,
        noise_scale: 50_000,
        particle_lifetime: 100 * UNIT,
        particle_min_weight: UNIT,
        particle_max_weight: 5 * UNIT,
        particle_step_length: UNIT,
        particle_auto_spawn_limit: 1000,
        outside_bounds_timeout: 60 * UNIT,
        automatically_spawn_particles: false,
    }
}

fn rect() -> SimpleRect {
    SimpleRect::from_w_h(420 * UNIT, 420 * UNIT)
}

fn fresh() -> Model {
    Model::with_config(config(), rect(), circle(360), luts(), StdRng::seed_from_u64(1)).unwrap()
}

fn model() -> Model {
    let mut m = fresh();
    m.set_flow_vector_field_builder_type(FlowVectorFieldBuilder::RightHandCurve);
    m.regen_flow_vectors(&Vec::new()).unwrap();
    m
}

fn refusal(config: Config, window: SimpleRect, luts: LutManager) -> ModelError {
    match Model::with_config(config, window, circle(8), luts, StdRng::seed_from_u64(1)) {
        Ok(_) => panic!("a model was made"),
        Err(e) => e,
    }
}

#[test]
fn rectangle_from_size_is_centred() {
    let r = SimpleRect::from_w_h(800 * UNIT, 600 * UNIT);
    assert_eq!(r, SimpleRect { left: -400 * UNIT, right: 400 * UNIT, top: 300 * UNIT, bottom: -300 * UNIT });
    assert_eq!(SimpleRect::from_w_h(5, 3), SimpleRect { left: -2, right: 2, top: 1, bottom: -1 });
    assert_eq!(SimpleRect::from_w_h(-5, -3), SimpleRect { left: 2, right: -2, top: -1, bottom: 1 });
    assert_eq!(SimpleRect::from_w_h(0, 0), SimpleRect { left: 0, right: 0, top: 0, bottom: 0 });
}

#[test]
fn rectangle_contains_its_edges() {
    let r = SimpleRect::from_w_h(800 * UNIT, 600 * UNIT);
    assert!(r.contains(Point2 { x: 0, y: 0 }));
    assert!(r.contains(Point2 { x: -400 * UNIT, y: 300 * UNIT }));
    assert!(r.contains(Point2 { x: 400 * UNIT, y: -300 * UNIT }));
    assert!(!r.contains(Point2 { x: 400 * UNIT + 1, y: 0 }));
    assert!(!r.contains(Point2 { x: -400 * UNIT - 1, y: 0 }));
    assert!(!r.contains(Point2 { x: 0, y: 300 * UNIT + 1 }));
    assert!(!r.contains(Point2 { x: 0, y: -300 * UNIT - 1 }));
    assert!(r.is_wf());
    assert!(!SimpleRect::from_w_h(-5, 3).is_wf());
    assert!(SimpleRect::from_w_h(2 * MAX_COORD, 2 * MAX_COORD).is_wf());
    assert!(!SimpleRect::from_w_h(2 * MAX_COORD + 2, 0).is_wf());
}

#[test]
fn whole_cells_only_are_counted() {
    assert_eq!(count_cells(350 * UNIT, 35 * UNIT), 10);
    assert_eq!(count_cells(384 * UNIT, 35 * UNIT), 10);
    assert_eq!(count_cells(385 * UNIT, 35 * UNIT), 11);
    assert_eq!(count_cells(34 * UNIT, 35 * UNIT), 0);
    assert_eq!(count_cells(0, 35 * UNIT), 0);
    assert_eq!(count_cells(-100, 35 * UNIT), 0);
    assert_eq!(count_cells(4096, 1), 4096);
    assert_eq!(count_cells(4097, 1), 4097);
    assert_eq!(count_cells(i64::MAX, 1), 4097);
}

#[test]
fn window_gives_the_default_configuration() {
    let c = Config::for_window(Point2 { x: 1920 * UNIT, y: 1080 * UNIT }, 42);
    assert_eq!(c.grid_width, 54);
    assert_eq!(c.grid_height, 30);
    assert_eq!(c.vector_spacing, DEFAULT_VECTOR_SPACING);
    assert_eq!(c.vector_spacing, 35 * UNIT);
    assert_eq!(c.vector_magnitude, DEFAULT_VECTOR_MAGNITUDE);
    assert_eq!(c.vector_magnitude, 15 * UNIT);
    assert_eq!(c.noise_seed, 42);
    assert_eq!(c.noise_scale, DEFAULT_NOISE_SCALE);
    assert_eq!(c.noise_scale, 50_000);
    assert_eq!(c.particle_lifetime, DEFAULT_PARTICLE_LIFETIME);
    assert_eq!(c.particle_min_weight, DEFAULT_MIN_WEIGHT);
    assert_eq!(c.particle_max_weight, DEFAULT_MAX_WEIGHT);
    assert_eq!(c.particle_step_length, DEFAULT_STEP_LENGTH);
    assert_eq!(c.particle_auto_spawn_limit, DEFAULT_AUTO_SPAWN_PARTICLE_COUNT_LIMIT);
    assert_eq!(c.outside_bounds_timeout, DEFAULT_OUTSIDE_BOUNDS_TIMEOUT);
    assert!(c.automatically_spawn_particles);
    assert_eq!(c.validate(), Ok(()));
    let narrow = Config::for_window(Point2 { x: 960 * UNIT, y: 540 * UNIT }, 1);
    assert_eq!(narrow.noise_scale, 100_000);
    assert_eq!(narrow.grid_width, 27);
    assert_eq!(narrow.grid_height, 15);
    let wide = Config::for_window(Point2 { x: 3840 * UNIT, y: 2160 * UNIT }, 1);
    assert_eq!(wide.noise_scale, 50_000);
    let tiny = Config::for_window(Point2 { x: 1, y: 1 }, 1);
    assert_eq!(tiny.noise_scale, 96_000_000_000_000);
    assert_eq!(tiny.validate(), Err(ConfigError::EmptyGrid));
}

#[test]
fn faulty_configurations_are_named() {
    let good = config();
    assert_eq!(good.validate(), Ok(()));
    assert_eq!(Config { vector_spacing: 0, ..good }.validate(), Err(ConfigError::ZeroSpacing));
    assert_eq!(Config { vector_spacing: -1, ..good }.validate(), Err(ConfigError::ZeroSpacing));
    assert_eq!(Config { vector_magnitude: 0, ..good }.validate(), Err(ConfigError::ZeroMagnitude));
    assert_eq!(Config { grid_width: 0, ..good }.validate(), Err(ConfigError::EmptyGrid));
    assert_eq!(Config { grid_height: 0, ..good }.validate(), Err(ConfigError::EmptyGrid));
    assert_eq!(Config { grid_height: 4097, ..good }.validate(), Err(ConfigError::OutOfRange));
    assert_eq!(Config { grid_width: 4097, ..good }.validate(), Err(ConfigError::OutOfRange));
    assert_eq!(Config { vector_spacing: MAX_COORD + 1, ..good }.validate(), Err(ConfigError::OutOfRange));
    assert_eq!(Config { vector_magnitude: MAX_COORD + 1, ..good }.validate(), Err(ConfigError::OutOfRange));
    assert_eq!(Config { vector_spacing: 0, vector_magnitude: 0, grid_width: 0, ..good }.validate(), Err(ConfigError::ZeroSpacing));
    assert_eq!(Config { vector_magnitude: 0, grid_width: 0, ..good }.validate(), Err(ConfigError::ZeroMagnitude));
    assert_eq!(ConfigError::ZeroSpacing.to_string(), "vector spacing must be greater than zero");
    assert_eq!(ConfigError::ZeroMagnitude.to_string(), "vector magnitude must be greater than zero");
    assert_eq!(ConfigError::EmptyGrid.to_string(), "the grid needs at least one row and one column");
    assert_eq!(ConfigError::OutOfRange.to_string(), "a dimension is beyond the supported range");
}

#[test]
fn a_model_is_not_made_from_faulty_parts() {
    let good = config();
    assert_eq!(refusal(Config { vector_spacing: 0, ..good }, rect(), luts()), ModelError::Config(ConfigError::ZeroSpacing));
    assert_eq!(refusal(Config { vector_magnitude: 0, ..good }, rect(), luts()), ModelError::Config(ConfigError::ZeroMagnitude));
    assert_eq!(refusal(Config { grid_width: 0, ..good }, rect(), luts()), ModelError::Config(ConfigError::EmptyGrid));
    assert_eq!(refusal(good, SimpleRect::from_w_h(-2, 2), luts()), ModelError::Config(ConfigError::OutOfRange));
    assert_eq!(refusal(good, SimpleRect::from_w_h(3 * MAX_COORD, 2), luts()), ModelError::Config(ConfigError::OutOfRange));
    assert_eq!(refusal(good, rect(), LutManager::new()), ModelError::NoLut);
    let mut none_taken = LutManager::new();
    assert_eq!(none_taken.insert("a", vec![1, 2, 3]), Err(LutError::InvalidData));
    assert_eq!(refusal(good, rect(), none_taken), ModelError::NoLut);
    assert_eq!(refusal(Config { grid_width: 0, ..good }, rect(), LutManager::new()), ModelError::Config(ConfigError::EmptyGrid));
}

#[test]
fn a_fresh_model_holds_the_curve_field() {
    let m = fresh();
    assert!(m.regeneration_due());
    assert_eq!(m.config(), config());
    assert_eq!(m.window_rect(), rect());
    assert_eq!(m.background(), Background::Vectors);
    assert_eq!(m.redraw_background(), RedrawBackground::Pending);
    assert_eq!(m.flow_vector_field_builder_type(), FlowVectorFieldBuilder::Billow);
    assert_eq!(m.particle_shape(), ParticleShape::Circle);
    assert_eq!(m.current_lut(), "ramp");
    assert_eq!(m.lut().green[3], 6);
    assert_eq!(m.noise_offset(), Point2 { x: 0, y: 0 });
    assert_eq!(m.mouse_xy(), Point2 { x: 0, y: 0 });
    assert!(!m.draw_particle_mode());
    assert!(m.show_ui());
    assert!(m.flow_particles().is_empty());
    assert_eq!(m.get_origin(), (-175 * UNIT, -175 * UNIT));
    let layout = GridLayout { origin: Point2 { x: -175 * UNIT, y: -175 * UNIT }, spacing: 35 * UNIT, width: 10, height: 10 };
    assert_eq!(m.layout(), layout);
    assert_eq!(m.fresh_layout(), layout);
    assert_eq!(m.flow_vectors().len(), 100);
    assert_eq!(*m.flow_vectors(), right_hand_curve_vectors(&layout, 15 * UNIT).unwrap());
    assert_eq!(new_right_hand_curve_flow_vectors(&m), *m.flow_vectors());
    assert_eq!(m.trig().steps(), 360);
    assert_eq!(m.lut_manager().get_available_luts(), vec!["ramp", "zero"]);
}

#[test]
fn the_grid_starts_one_spacing_inside_the_viewport() {
    let window = SimpleRect::from_w_h(350 * UNIT, 350 * UNIT);
    let m = Model::with_config(config(), window, circle(360), luts(), StdRng::seed_from_u64(1)).unwrap();
    assert_eq!(m.get_origin(), (-140 * UNIT, -140 * UNIT));
    assert_eq!(m.layout().origin, Point2 { x: -140 * UNIT, y: -140 * UNIT });
    assert_eq!(m.flow_vectors()[0].position(), Point2 { x: -140 * UNIT, y: -140 * UNIT });
    assert_eq!(m.flow_vectors()[99].position(), Point2 { x: 175 * UNIT, y: 175 * UNIT });
}

#[test]
fn new_model_fits_the_window() {
    let m = Model::new(Point2 { x: 800 * UNIT, y: 600 * UNIT }, circle(360), luts(), StdRng::seed_from_u64(3)).unwrap();
    let c = m.config();
    assert!(c.noise_seed < NOISE_SEED_LIMIT);
    assert_eq!(c, Config::for_window(Point2 { x: 800 * UNIT, y: 600 * UNIT }, c.noise_seed));
    assert_eq!(c.grid_width, 22);
    assert_eq!(c.grid_height, 17);
    assert_eq!(c.noise_scale, 120_000);
    assert_eq!(m.window_rect(), SimpleRect::from_w_h(800 * UNIT, 600 * UNIT));
    assert_eq!(m.flow_vectors().len(), 22 * 17);
    assert_eq!(m.get_origin(), (-365 * UNIT, -265 * UNIT));
    assert_eq!(m.flow_vectors()[0].position(), Point2 { x: -365 * UNIT, y: -265 * UNIT });
    let small = Model::new(Point2 { x: 30 * UNIT, y: 600 * UNIT }, circle(360), luts(), StdRng::seed_from_u64(3));
    assert_eq!(small.err(), Some(ModelError::Config(ConfigError::EmptyGrid)));
    let seeds: Vec<u32> = (0..20)
        .map(|s| {
            Model::new(Point2 { x: 800 * UNIT, y: 600 * UNIT }, circle(4), luts(), StdRng::seed_from_u64(s))
                .unwrap()
                .config()
                .noise_seed
        })
        .collect();
    assert!(seeds.iter().all(|s| *s < 100_000));
    assert!(seeds.iter().any(|s| *s != seeds[0]));
}

#[test]
fn nearest_heading_comes_from_the_grid() {
    let m = model();
    let layout = m.layout();
    for col in 0..10 {
        for row in 0..10 {
            let at = layout.position(row, col);
            assert_eq!(nearest_angle_in_grid(at, &m), (col as i64) * 18 * UNIT);
            let near = Point2 { x: at.x + 17 * UNIT, y: at.y - 17 * UNIT };
            assert_eq!(nearest_angle_in_grid(near, &m), (col as i64) * 18 * UNIT);
        }
    }
}

#[test]
fn far_points_get_the_heading_of_the_edge() {
    let m = model();
    let far = 10 * 35 * UNIT;
    let r = m.window_rect();
    assert_eq!(nearest_angle_in_grid(Point2 { x: r.right + far, y: r.top + far }, &m), 162 * UNIT);
    assert_eq!(nearest_angle_in_grid(Point2 { x: r.left - far, y: r.top + far }, &m), 162 * UNIT);
    assert_eq!(nearest_angle_in_grid(Point2 { x: 0, y: r.top + far }, &m), 162 * UNIT);
    assert_eq!(nearest_angle_in_grid(Point2 { x: r.right + far, y: r.bottom - far }, &m), 0);
    assert_eq!(nearest_angle_in_grid(Point2 { x: r.right + far, y: -175 * UNIT + 5 * 35 * UNIT }, &m), 90 * UNIT);
    assert_eq!(nearest_angle_in_grid(Point2 { x: i64::MAX, y: i64::MAX }, &m), 162 * UNIT);
    assert_eq!(nearest_angle_in_grid(Point2 { x: i64::MIN, y: i64::MIN }, &m), 0);
    let mut noisy = model();
    noisy.set_flow_vector_field_builder_type(FlowVectorFieldBuilder::Value);
    let samples: Vec<i64> = (0..100).map(|i| -UNIT + 20_000 + (i as i64) * 10_000).collect();
    noisy.regen_flow_vectors(&samples).unwrap();
    let corner = noisy.flow_vectors()[99].heading();
    assert_eq!(corner, -178_200_000);
    assert_eq!(nearest_angle_in_grid(Point2 { x: r.right + far, y: r.top + far }, &noisy), corner);
    let first = noisy.flow_vectors()[0].heading();
    assert_eq!(first, 3_600_000);
    assert_eq!(nearest_angle_in_grid(Point2 { x: r.left - far, y: r.bottom - far }, &noisy), first);
}

#[test]
fn a_particle_is_made_from_its_draws() {
    let m = model();
    let at = Point2 { x: 3, y: 4 };
    let p = m.particle_from_draws(at, SpawnDraws { age: UNIT / 4, color: UNIT / 2, weight: UNIT / 2, step: 123 });
    assert_eq!(p.age(), 25 * UNIT);
    assert_eq!(p.aging_rate, DEFAULT_AGING_RATE);
    assert_eq!(p.color, Color { r: 127, g: 254, b: 125, a: 255 });
    assert_eq!(p.weight(), 3 * UNIT);
    assert_eq!(p.step_length, 123);
    assert_eq!(*p.xy(), at);
    assert_eq!(p.previous_xy, at);
    assert_eq!(p.time_outside_bounds(), 0);
    assert_eq!(p.shape, ParticleShape::Circle);
    let first = m.particle_from_draws(at, SpawnDraws { age: 0, color: 0, weight: 0, step: 0 });
    assert_eq!(first.age(), 0);
    assert_eq!(first.color, Color { r: 0, g: 0, b: 0, a: 255 });
    assert_eq!(first.weight(), UNIT);
    let last = m.particle_from_draws(at, SpawnDraws { age: UNIT - 1, color: UNIT - 1, weight: UNIT - 1, step: UNIT - 1 });
    assert_eq!(last.age(), 100 * UNIT - 100);
    assert_eq!(last.color, Color { r: 254, g: 252, b: 250, a: 255 });
    assert_eq!(last.weight(), 5 * UNIT - 4);
    let beyond = m.particle_from_draws(at, SpawnDraws { age: 0, color: i64::MAX, weight: 0, step: 0 });
    assert_eq!(beyond.color, Color { r: 255, g: 254, b: 253, a: 255 });
    let before = m.particle_from_draws(at, SpawnDraws { age: 0, color: i64::MIN, weight: 0, step: 0 });
    assert_eq!(before.color, Color { r: 0, g: 0, b: 0, a: 255 });
}

#[test]
fn spawning_appends_a_particle_within_the_ranges() {
    let mut m = model();
    m.set_particle_shape(ParticleShape::Diamond);
    let at = Point2 { x: 10 * UNIT, y: -20 * UNIT };
    for i in 0..200 {
        assert_eq!(m.spawn_new_particle(at), i);
    }
    assert_eq!(m.flow_particles().len(), 200);
    let mut ages = Vec::new();
    for p in m.flow_particles() {
        assert!(0 <= p.age() && p.age() < 100 * UNIT);
        assert!(UNIT <= p.weight() && p.weight() < 5 * UNIT);
        assert!(0 <= p.step_length && p.step_length < UNIT);
        assert_eq!(p.aging_rate, DEFAULT_AGING_RATE);
        assert_eq!(*p.xy(), at);
        assert_eq!(p.previous_xy, at);
        assert_eq!(p.time_outside_bounds(), 0);
        assert_eq!(p.shape, ParticleShape::Diamond);
        assert_eq!(p.color.a, 255);
        assert!(p.color.r < 255);
        assert_eq!(p.color.g, p.color.r.wrapping_mul(2));
        assert_eq!(p.color.b, p.color.r.wrapping_mul(3));
        ages.push(p.age());
    }
    assert!(ages.iter().any(|a| *a != ages[0]));
    assert_eq!(m.flow_vectors().len(), 100);
    assert_eq!(m.config(), config());
}

#[test]
fn a_seed_replays_the_spawns() {
    let mut first = Model::with_config(config(), rect(), circle(360), luts(), StdRng::seed_from_u64(9)).unwrap();
    let mut second = Model::with_config(config(), rect(), circle(360), luts(), StdRng::seed_from_u64(9)).unwrap();
    for _ in 0..50 {
        let a = first.get_random_xy();
        let b = second.get_random_xy();
        assert_eq!(a, b);
        first.spawn_new_particle(a);
        second.spawn_new_particle(b);
    }
    assert_eq!(first.flow_particles(), second.flow_particles());
}

#[test]
fn random_points_lie_in_the_viewport() {
    let mut m = model();
    let r = m.window_rect();
    let mut points = Vec::new();
    for _ in 0..300 {
        let p = m.get_random_xy();
        assert!(r.contains(p));
        points.push(p);
    }
    assert!(points.iter().any(|p| p.x < 0));
    assert!(points.iter().any(|p| p.x > 0));
    assert!(points.iter().any(|p| p.y < 0));
    assert!(points.iter().any(|p| p.y > 0));
    assert_eq!(m.point_from_draws(0, 0), Point2 { x: r.left, y: r.bottom });
    assert_eq!(m.point_from_draws(UNIT / 2, UNIT / 4), Point2 { x: 0, y: -105 * UNIT });
    assert_eq!(m.point_from_draws(UNIT - 1, UNIT - 1), Point2 { x: r.right - 420, y: r.top - 420 });
    assert!(m.flow_particles().is_empty());
}

#[test]
fn sample_points_step_by_the_noise_scale() {
    let mut m = model();
    let points = m.noise_sample_points();
    assert_eq!(points.len(), 100);
    for col in 0..10 {
        for row in 0..10 {
            assert_eq!(points[row + col * 10], Point2 { x: col as i64 * 50_000, y: row as i64 * 50_000 });
        }
    }
    m.reroll_noise_offset();
    let offset = m.noise_offset();
    assert!(0 <= offset.x && offset.x < NOISE_OFFSET_LIMIT);
    assert!(0 <= offset.y && offset.y < NOISE_OFFSET_LIMIT);
    assert_eq!(NOISE_OFFSET_LIMIT, 1000 * UNIT);
    m.set_noise_scale(2 * UNIT);
    let moved = m.noise_sample_points();
    for col in 0..10 {
        for row in 0..10 {
            assert_eq!(
                moved[row + col * 10],
                Point2 { x: col as i64 * 2 * UNIT + offset.x, y: row as i64 * 2 * UNIT + offset.y }
            );
        }
    }
    m.set_noise_scale(i64::MAX);
    let saturated = m.noise_sample_points();
    assert_eq!(saturated[0], offset);
    assert_eq!(saturated[11], Point2 { x: i64::MAX, y: i64::MAX });
    let mut offsets = Vec::new();
    for _ in 0..20 {
        m.reroll_noise_offset();
        offsets.push(m.noise_offset());
    }
    assert!(offsets.iter().any(|o| *o != offsets[0]));
}

#[test]
fn a_kept_offset_can_be_put_back() {
    let mut m = model();
    let at = Point2 { x: 12 * UNIT, y: 999 * UNIT + 999_999 };
    assert_eq!(m.set_noise_offset(at), Ok(()));
    assert_eq!(m.noise_offset(), at);
    assert_eq!(m.noise_sample_points()[0], at);
    assert_eq!(m.noise_sample_points()[2 + 3 * 10], Point2 { x: at.x + 3 * 50_000, y: at.y + 2 * 50_000 });
    for refused in [
        Point2 { x: -1, y: 0 },
        Point2 { x: 0, y: -1 },
        Point2 { x: NOISE_OFFSET_LIMIT, y: 0 },
        Point2 { x: 0, y: NOISE_OFFSET_LIMIT },
        Point2 { x: i64::MAX, y: i64::MIN },
    ] {
        assert_eq!(m.set_noise_offset(refused), Err(ConfigError::OutOfRange));
        assert_eq!(m.noise_offset(), at);
    }
    assert_eq!(m.set_noise_offset(Point2 { x: 0, y: 0 }), Ok(()));
    assert_eq!(m.noise_offset(), Point2 { x: 0, y: 0 });
    assert!(!m.regeneration_due());
    assert_eq!(m.flow_vectors().len(), 100);
}

#[test]
fn a_generation_starts_with_a_new_offset() {
    let mut m = model();
    let mut offsets = Vec::new();
    for _ in 0..10 {
        let points = m.begin_field_generation();
        let offset = m.noise_offset();
        assert!(0 <= offset.x && offset.x < NOISE_OFFSET_LIMIT);
        assert!(0 <= offset.y && offset.y < NOISE_OFFSET_LIMIT);
        assert_eq!(points, m.noise_sample_points());
        assert_eq!(points[0], offset);
        assert_eq!(points[3 + 7 * 10], Point2 { x: offset.x + 7 * 50_000, y: offset.y + 3 * 50_000 });
        offsets.push(offset);
    }
    assert!(offsets.iter().any(|o| *o != offsets[0]));
    assert_eq!(m.flow_vectors().len(), 100);
}

#[test]
fn changes_to_the_field_make_a_regeneration_due() {
    let mut m = model();
    assert!(!m.regeneration_due());
    m.set_particle_lifetime(3 * UNIT);
    m.set_particle_shape(ParticleShape::Star);
    m.set_noise_seed(7);
    m.set_noise_scale(50_000);
    m.set_flow_vector_field_builder_type(FlowVectorFieldBuilder::RightHandCurve);
    assert_eq!(m.apply_config(Config { particle_max_weight: 9 * UNIT, ..m.config() }), Ok(()));
    assert_eq!(m.set_window_size(100 * UNIT, 100 * UNIT), Ok(()));
    assert!(!m.regeneration_due());
    m.set_noise_seed(8);
    assert!(m.regeneration_due());
    assert_eq!(m.regen_flow_vectors(&Vec::new()), Ok(()));
    assert!(!m.regeneration_due());
    m.set_noise_scale(60_000);
    assert!(m.regeneration_due());
    m.set_noise_scale(50_000);
    assert!(m.regeneration_due());
    assert_eq!(m.regen_flow_vectors(&Vec::new()), Ok(()));
    m.set_flow_vector_field_builder_type(FlowVectorFieldBuilder::Worley);
    assert!(m.regeneration_due());
    assert_eq!(m.regen_flow_vectors(&Vec::new()), Err(FieldError::SampleCount));
    assert!(m.regeneration_due());
    let samples = vec![0; m.fresh_layout().len()];
    assert_eq!(m.regen_flow_vectors(&samples), Ok(()));
    assert!(!m.regeneration_due());
    assert_eq!(m.apply_config(Config { grid_width: 0, ..m.config() }), Err(ConfigError::EmptyGrid));
    assert!(!m.regeneration_due());
    assert_eq!(m.apply_config(Config { vector_magnitude: 16 * UNIT, ..m.config() }), Ok(()));
    assert!(m.regeneration_due());
    let samples = vec![0; m.fresh_layout().len()];
    assert_eq!(m.regen_flow_vectors(&samples), Ok(()));
    assert_eq!(m.flow_vectors()[0].magnitude, 16 * UNIT);
    for changed in [
        Config { grid_width: 3, ..m.config() },
        Config { grid_height: 3, ..m.config() },
        Config { vector_spacing: 36 * UNIT, ..m.config() },
        Config { noise_seed: 1234, ..m.config() },
        Config { noise_scale: 1234, ..m.config() },
    ] {
        assert!(!changed.builds_same_field(&m.config()));
        assert_eq!(m.apply_config(changed), Ok(()));
        assert!(m.regeneration_due());
        let samples = vec![0; m.fresh_layout().len()];
        assert_eq!(m.regen_flow_vectors(&samples), Ok(()));
        assert!(!m.regeneration_due());
    }
}

#[test]
fn regeneration_replaces_the_field_at_once() {
    let mut m = model();
    m.set_background(Background::Black);
    assert_eq!(m.redraw_background(), RedrawBackground::Pending);
    m.set_flow_vector_field_builder_type(FlowVectorFieldBuilder::Billow);
    let before = m.flow_vectors().clone();
    assert_eq!(m.regen_flow_vectors(&vec![0; 99]), Err(FieldError::SampleCount));
    assert_eq!(*m.flow_vectors(), before);
    assert_eq!(m.background(), Background::Black);
    let samples: Vec<i64> = (0..100).map(|i| (i as i64) * 20_000 - UNIT).collect();
    assert_eq!(create_noise_flow_vectors(&m, &samples), noise_vectors(&m.fresh_layout(), 15 * UNIT, &samples));
    assert_eq!(create_noise_flow_vectors(&m, &vec![0; 3]), Err(FieldError::SampleCount));
    assert_eq!(m.regen_flow_vectors(&samples), Ok(()));
    assert_eq!(*m.flow_vectors(), noise_vectors(&m.layout(), 15 * UNIT, &samples).unwrap());
    assert_eq!(m.flow_vectors()[50].heading(), HALF_TURN);
    assert_eq!(m.flow_vectors()[25].heading(), 90 * UNIT);
    assert_eq!(m.background(), Background::Vectors);
    assert_eq!(m.redraw_background(), RedrawBackground::Pending);
    let first = m.flow_vectors().clone();
    assert_eq!(m.regen_flow_vectors(&samples), Ok(()));
    assert_eq!(*m.flow_vectors(), first);
    m.set_flow_vector_field_builder_type(FlowVectorFieldBuilder::RightHandCurve);
    assert_eq!(m.regen_flow_vectors(&Vec::new()), Ok(()));
    assert_eq!(*m.flow_vectors(), before);
}

#[test]
fn changed_geometry_takes_effect_on_regeneration() {
    let mut m = model();
    let old_vectors = m.flow_vectors().clone();
    assert_eq!(m.apply_config(Config { vector_spacing: 0, ..config() }), Err(ConfigError::ZeroSpacing));
    assert_eq!(m.apply_config(Config { grid_height: 0, ..config() }), Err(ConfigError::EmptyGrid));
    assert_eq!(m.config(), config());
    let changed = Config { grid_width: 4, grid_height: 3, vector_spacing: 50 * UNIT, vector_magnitude: 9 * UNIT, ..config() };
    assert_eq!(m.apply_config(changed), Ok(()));
    assert_eq!(m.config(), changed);
    assert_eq!(*m.flow_vectors(), old_vectors);
    assert_eq!(m.set_window_size(3 * MAX_COORD, 10), Err(ConfigError::OutOfRange));
    assert_eq!(m.set_window_size(-10, 10), Err(ConfigError::OutOfRange));
    assert_eq!(m.window_rect(), rect());
    assert_eq!(m.set_window_size(300 * UNIT, 200 * UNIT), Ok(()));
    assert_eq!(m.window_rect(), SimpleRect::from_w_h(300 * UNIT, 200 * UNIT));
    assert_eq!(*m.flow_vectors(), old_vectors);
    assert_eq!(nearest_angle_in_grid(Point2 { x: -175 * UNIT, y: -175 * UNIT + 70 * UNIT }, &m), 36 * UNIT);
    assert_eq!(m.regen_flow_vectors(&Vec::new()), Ok(()));
    let layout = GridLayout { origin: Point2 { x: -100 * UNIT, y: -50 * UNIT }, spacing: 50 * UNIT, width: 4, height: 3 };
    assert_eq!(m.layout(), layout);
    assert_eq!(*m.flow_vectors(), right_hand_curve_vectors(&layout, 9 * UNIT).unwrap());
    assert_eq!(m.flow_vectors()[11].heading(), 120 * UNIT);
}

#[test]
fn tunables_can_be_set_one_by_one() {
    let mut m = model();
    m.spawn_new_particle(Point2 { x: 0, y: 0 });
    let particles = m.flow_particles().clone();
    m.set_noise_seed(99);
    m.set_noise_scale(77);
    m.set_particle_lifetime(5 * UNIT);
    m.set_particle_min_weight(2 * UNIT);
    m.set_particle_max_weight(3 * UNIT);
    m.set_particle_step_length(UNIT / 2);
    m.set_automatically_spawn_particles(true);
    m.set_particle_auto_spawn_limit(12);
    m.set_outside_bounds_timeout(9 * UNIT);
    assert_eq!(
        m.config(),
        Config {
            noise_seed: 99,
            noise_scale: 77,
            particle_lifetime: 5 * UNIT,
            particle_min_weight: 2 * UNIT,
            particle_max_weight: 3 * UNIT,
            particle_step_length: UNIT / 2,
            automatically_spawn_particles: true,
            particle_auto_spawn_limit: 12,
            outside_bounds_timeout: 9 * UNIT,
            ..config()
        }
    );
    assert_eq!(*m.flow_particles(), particles);
    m.spawn_new_particle(Point2 { x: 0, y: 0 });
    let p = m.flow_particles()[1];
    assert!(p.age() < 5 * UNIT);
    assert!(2 * UNIT <= p.weight() && p.weight() < 3 * UNIT);
    m.set_particle_shape(ParticleShape::Triangle);
    assert_eq!(m.particle_shape(), ParticleShape::Triangle);
    m.set_show_ui(false);
    assert!(!m.show_ui());
    m.set_draw_particle_mode(true);
    assert!(m.draw_particle_mode());
    m.set_mouse_xy(Point2 { x: 4, y: 5 });
    assert_eq!(m.mouse_xy(), Point2 { x: 4, y: 5 });
    m.clear_particles();
    assert!(m.flow_particles().is_empty());
    assert_eq!(m.insert_particle(p), 0);
    assert_eq!(*m.flow_particles(), vec![p]);
}

#[test]
fn the_current_table_colors_the_spawns() {
    let mut m = model();
    assert_eq!(m.set_current_lut("none"), Err(LutError::NotFound(String::from("none"))));
    assert_eq!(m.set_current_lut("none").err().map(|e| e.to_string()), Some(String::from("LUT 'none' not found")));
    assert_eq!(m.current_lut(), "ramp");
    assert_eq!(m.set_current_lut("zero"), Ok(()));
    assert_eq!(m.current_lut(), "zero");
    assert_eq!(m.lut().red, vec![0u8; 256]);
    for _ in 0..20 {
        m.spawn_new_particle(Point2 { x: 0, y: 0 });
    }
    assert!(m.flow_particles().iter().all(|p| p.color == Color { r: 0, g: 0, b: 0, a: 255 }));
    let mut broken = luts();
    assert_eq!(broken.insert("short", vec![9; 10]), Err(LutError::InvalidData));
    let mut n = Model::with_config(config(), rect(), circle(8), broken, StdRng::seed_from_u64(1)).unwrap();
    assert_eq!(n.set_current_lut("short"), Err(LutError::NotFound(String::from("short"))));
    assert_eq!(n.current_lut(), "ramp");
    assert_eq!(n.lut().blue[1], 3);
    assert_eq!(n.lut().red, n.lut_manager().load_lut(n.current_lut()).unwrap().red);
}

#[test]
fn a_random_spawn_lands_in_the_viewport() {
    let mut m = model();
    for i in 0..100 {
        assert_eq!(m.spawn_random_particle(), i);
        let p = m.flow_particles()[i];
        assert!(m.window_rect().contains(*p.xy()));
        assert_eq!(p.previous_xy, *p.xy());
        assert!(p.age() < 100 * UNIT);
    }
    let first = *m.flow_particles()[0].xy();
    assert!(m.flow_particles().iter().any(|p| *p.xy() != first));
}

#[test]
fn pointer_spawning_needs_the_mode() {
    let mut m = model();
    m.set_mouse_xy(Point2 { x: 7 * UNIT, y: 8 * UNIT });
    assert_eq!(m.spawn_at_pointer(), None);
    assert!(m.flow_particles().is_empty());
    m.set_draw_particle_mode(true);
    assert_eq!(m.spawn_at_pointer(), Some(0));
    assert_eq!(m.spawn_at_pointer(), Some(1));
    assert_eq!(m.flow_particles().len(), 2);
    assert_eq!(*m.flow_particles()[1].xy(), Point2 { x: 7 * UNIT, y: 8 * UNIT });
}
