use flow_field::color::Color;
use flow_field::fixed::{Point2, UNIT};
use flow_field::flow_particle::FlowParticle;
use flow_field::lut_manager::LutManager;
use flow_field::model::config::Config;
use flow_field::model::enums::{Background, ParticleShape, RedrawBackground};
use flow_field::model::update::{
    key_pressed, mouse_moved, mouse_pressed, mouse_released, resized, retain_live, update,
    ElementState, Key, MouseButton,
};
use flow_field::model::view::{view, FramePlan};
use flow_field::model::{Model, SimpleRect};
use flow_field::trig::TrigTable;
use rand::rngs::StdRng;
use rand::SeedableRng;

fn circle(steps: usize) -> TrigTable {
    let mut entries = Vec::new();
    for i in 0..steps {
        let angle = (i as f64) * std::f64::consts::TAU / (steps as f64);
        entries.push(Point2 {
            x: (angle.cos() * 1_000_000.0).round() as i64,
            y: (angle.sin() * 1_000_000.0).round() as i64,
        });
    }
    TrigTable::new(entries).unwrap()
}

fn luts() -> LutManager {
    let mut luts = LutManager::new();
    luts.insert("gray", (0..768).map(|i| (i % 256) as u8).collect()).unwrap();
    luts
}

fn config() -> Config {
    Config {
        grid_width: 10,
        grid_height: 10,
        vector_spacing: 35 * UNIT,
        vector_magnitude: 15 * UNIT,
        noise_seed: 7,
        noise_scale: 50_000,
        particle_lifetime: 100 * UNIT,
        particle_min_weight: UNIT,
        particle_max_weight: 5 * UNIT,
        particle_step_length: 0,
        particle_auto_spawn_limit: 1000,
        outside_bounds_timeout: 60 * UNIT,
        automatically_spawn_particles: false,
    }
}

fn model_with(config: Config) -> Model {
    let rect = SimpleRect::from_w_h(420 * UNIT, 420 * UNIT);
    Model::with_config(config, rect, circle(360), luts(), StdRng::seed_from_u64(21)).unwrap()
}

fn particle(age: i64, aging_rate: i64, step_length: i64, at: Point2) -> FlowParticle {
    FlowParticle::new(age, aging_rate, Color::black(), step_length, UNIT, at, ParticleShape::Circle)
}

#[test]
fn one_tick_moves_a_particle_along_the_field() {
    let mut m = model_with(config());
    let origin = m.layout().origin;
    assert_eq!(origin, Point2 { x: -175 * UNIT, y: -175 * UNIT });
    m.insert_particle(particle(0, UNIT / 10, UNIT, origin));
    update(&mut m, UNIT);
    assert_eq!(m.flow_particles().len(), 1);
    let p = m.flow_particles()[0];
    assert_eq!(*p.xy(), Point2 { x: origin.x + UNIT, y: origin.y });
    assert_eq!(p.previous_xy, origin);
    assert_eq!(p.age(), 100_000);
    assert_eq!(p.time_outside_bounds(), 0);
}

#[test]
fn the_step_uses_the_heading_where_the_particle_stood() {
    let mut m = model_with(Config { particle_step_length: 34 * UNIT, ..config() });
    let start = m.layout().position(3, 4);
    m.insert_particle(particle(0, 0, UNIT, start));
    update(&mut m, UNIT);
    let p = m.flow_particles()[0];
    assert_eq!(*p.xy(), Point2 { x: start.x + 10_815_595, y: start.y + 33_286_995 });
    update(&mut m, UNIT);
    let q = m.flow_particles()[0];
    assert_eq!(q.previous_xy, *p.xy());
    assert_eq!(*q.xy(), Point2 { x: p.xy().x, y: p.xy().y + 35 * UNIT });
}

#[test]
fn a_particle_is_gone_in_the_tick_it_reaches_the_lifetime() {
    let mut m = model_with(Config { particle_lifetime: 5 * UNIT, ..config() });
    m.insert_particle(particle(0, UNIT, 0, Point2 { x: 0, y: 0 }));
    for tick in 1..=4 {
        update(&mut m, UNIT);
        assert_eq!(m.flow_particles().len(), 1);
        assert_eq!(m.flow_particles()[0].age(), tick * UNIT);
    }
    update(&mut m, UNIT);
    assert!(m.flow_particles().is_empty());
}

#[test]
fn retirement_by_age_takes_the_rounded_up_number_of_ticks() {
    let cases = [(UNIT, 300_000, 4), (UNIT, 250_000, 4), (UNIT, UNIT, 1), (10 * UNIT, 3 * UNIT, 4), (7, 2, 4), (5 * UNIT, 100_000, 50)];
    for (lifetime, rate, ticks) in cases {
        let mut m = model_with(Config { particle_lifetime: lifetime, ..config() });
        m.insert_particle(particle(0, rate, 0, Point2 { x: 0, y: 0 }));
        assert_eq!(ticks, (lifetime + rate - 1) / rate);
        for _ in 1..ticks {
            update(&mut m, UNIT);
            assert_eq!(m.flow_particles().len(), 1);
        }
        update(&mut m, UNIT);
        assert!(m.flow_particles().is_empty());
    }
}

#[test]
fn a_particle_outside_for_the_timeout_is_removed() {
    let mut m = model_with(Config { outside_bounds_timeout: 3 * UNIT, ..config() });
    let outside = Point2 { x: 500 * UNIT, y: 0 };
    m.insert_particle(particle(0, 0, 0, outside));
    m.insert_particle(particle(0, 0, 0, Point2 { x: 0, y: 0 }));
    update(&mut m, UNIT);
    assert_eq!(m.flow_particles().len(), 2);
    assert_eq!(m.flow_particles()[0].time_outside_bounds(), UNIT);
    assert_eq!(m.flow_particles()[1].time_outside_bounds(), 0);
    update(&mut m, UNIT);
    assert_eq!(m.flow_particles()[0].time_outside_bounds(), 2 * UNIT);
    update(&mut m, UNIT);
    assert_eq!(m.flow_particles().len(), 1);
    assert_eq!(*m.flow_particles()[0].xy(), Point2 { x: 0, y: 0 });
    for _ in 0..10 {
        update(&mut m, UNIT);
    }
    assert_eq!(m.flow_particles().len(), 1);
    assert_eq!(m.flow_particles()[0].time_outside_bounds(), 0);
}

#[test]
fn the_timeout_counts_the_time_not_the_ticks() {
    let mut m = model_with(Config { outside_bounds_timeout: 3 * UNIT, ..config() });
    m.insert_particle(particle(0, 0, 0, Point2 { x: 500 * UNIT, y: 0 }));
    for tick in 1..=5 {
        update(&mut m, UNIT / 2);
        assert_eq!(m.flow_particles()[0].time_outside_bounds(), tick * UNIT / 2);
    }
    update(&mut m, UNIT / 2);
    assert!(m.flow_particles().is_empty());
    m.insert_particle(particle(0, 0, 0, Point2 { x: 500 * UNIT, y: 0 }));
    update(&mut m, 3 * UNIT);
    assert!(m.flow_particles().is_empty());
}

#[test]
fn coming_back_inside_resets_the_time_outside() {
    let mut m = model_with(Config { outside_bounds_timeout: 3 * UNIT, ..config() });
    let edge = m.window_rect().bottom;
    m.insert_particle(particle(0, 0, UNIT, Point2 { x: 0, y: edge - 3 * UNIT + 1 }));
    m.set_flow_vector_field_builder_type(flow_field::flow_vector::FlowVectorFieldBuilder::Value);
    m.regen_flow_vectors(&vec![-UNIT / 2; 100]).unwrap();
    update(&mut m, UNIT);
    assert_eq!(m.flow_particles()[0].time_outside_bounds(), UNIT);
    assert_eq!(m.flow_particles()[0].xy().y, edge - 2 * UNIT + 1);
    update(&mut m, UNIT);
    assert_eq!(m.flow_particles()[0].time_outside_bounds(), 2 * UNIT);
    assert_eq!(m.flow_particles()[0].xy().y, edge - UNIT + 1);
    update(&mut m, UNIT);
    assert_eq!(m.flow_particles().len(), 1);
    assert_eq!(m.flow_particles()[0].xy().y, edge + 1);
    assert_eq!(m.flow_particles()[0].time_outside_bounds(), 0);
    for _ in 0..50 {
        update(&mut m, UNIT);
        assert_eq!(m.flow_particles().len(), 1);
        assert_eq!(m.flow_particles()[0].time_outside_bounds(), 0);
    }
}

#[test]
fn auto_spawn_adds_one_particle_per_tick() {
    let mut m = model_with(Config {
        automatically_spawn_particles: true,
        particle_auto_spawn_limit: 1000,
        particle_lifetime: i64::MAX,
        ..config()
    });
    let rect = m.window_rect();
    for tick in 1..=50 {
        update(&mut m, UNIT);
        assert_eq!(m.flow_particles().len(), tick);
        let newest = m.flow_particles()[tick - 1];
        assert!(rect.contains(*newest.xy()));
        assert_eq!(newest.previous_xy, *newest.xy());
    }
}

#[test]
fn auto_spawn_stops_at_the_limit() {
    let mut m = model_with(Config {
        automatically_spawn_particles: true,
        particle_auto_spawn_limit: 3,
        particle_lifetime: i64::MAX,
        ..config()
    });
    for tick in 1..=3 {
        update(&mut m, UNIT);
        assert_eq!(m.flow_particles().len(), tick);
    }
    for _ in 0..10 {
        update(&mut m, UNIT);
        assert_eq!(m.flow_particles().len(), 3);
    }
    m.set_automatically_spawn_particles(false);
    m.clear_particles();
    update(&mut m, UNIT);
    assert!(m.flow_particles().is_empty());
    m.set_automatically_spawn_particles(true);
    m.set_particle_auto_spawn_limit(0);
    update(&mut m, UNIT);
    assert!(m.flow_particles().is_empty());
}

#[test]
fn auto_spawn_replaces_what_the_tick_removed() {
    let mut m = model_with(Config {
        automatically_spawn_particles: true,
        particle_auto_spawn_limit: 2,
        particle_lifetime: 5 * UNIT,
        ..config()
    });
    m.insert_particle(particle(4 * UNIT, UNIT, 0, Point2 { x: 0, y: 0 }));
    m.insert_particle(particle(4 * UNIT, UNIT, 0, Point2 { x: 1, y: 1 }));
    m.insert_particle(particle(0, 0, 0, Point2 { x: 2, y: 2 }));
    update(&mut m, UNIT);
    assert_eq!(m.flow_particles().len(), 2);
    assert_eq!(*m.flow_particles()[0].xy(), Point2 { x: 2, y: 2 });
    assert!(m.flow_particles()[1].age() < 5 * UNIT);
}

#[test]
fn survivors_keep_their_order() {
    let mut m = model_with(Config { particle_lifetime: 10 * UNIT, ..config() });
    for i in 0..10 {
        m.insert_particle(particle(i * UNIT, UNIT, 0, Point2 { x: i, y: 0 }));
    }
    update(&mut m, UNIT);
    let left: Vec<i64> = m.flow_particles().iter().map(|p| p.xy().x).collect();
    assert_eq!(left, vec![0, 1, 2, 3, 4, 5, 6, 7, 8]);
    for _ in 0..4 {
        update(&mut m, UNIT);
    }
    let left: Vec<i64> = m.flow_particles().iter().map(|p| p.xy().x).collect();
    assert_eq!(left, vec![0, 1, 2, 3, 4]);
    let kept = retain_live(m.flow_particles(), 8 * UNIT, UNIT);
    let ages: Vec<i64> = kept.iter().map(|p| p.age()).collect();
    assert_eq!(ages, vec![5 * UNIT, 6 * UNIT, 7 * UNIT]);
    assert!(retain_live(m.flow_particles(), 8 * UNIT, 0).is_empty());
}

#[test]
fn a_tick_moves_a_redraw_on() {
    let mut m = model_with(config());
    assert_eq!(m.redraw_background(), RedrawBackground::Pending);
    update(&mut m, UNIT);
    assert_eq!(m.redraw_background(), RedrawBackground::InProgress);
    update(&mut m, UNIT);
    assert_eq!(m.redraw_background(), RedrawBackground::Complete);
    update(&mut m, UNIT);
    assert_eq!(m.redraw_background(), RedrawBackground::Complete);
    resized(&mut m);
    assert_eq!(m.redraw_background(), RedrawBackground::Pending);
}

#[test]
fn a_frame_clears_while_the_redraw_is_in_progress() {
    let mut m = model_with(config());
    update(&mut m, UNIT);
    assert_eq!(view(&m), FramePlan { clear: Some(Background::White), draw_vectors: true, draw_particles: true });
    update(&mut m, UNIT);
    assert_eq!(view(&m), FramePlan { clear: None, draw_vectors: false, draw_particles: true });
    m.set_background(Background::Black);
    update(&mut m, UNIT);
    assert_eq!(view(&m), FramePlan { clear: Some(Background::Black), draw_vectors: false, draw_particles: true });
    m.set_background(Background::White);
    update(&mut m, UNIT);
    assert_eq!(view(&m), FramePlan { clear: Some(Background::White), draw_vectors: false, draw_particles: true });
}

#[test]
fn the_pointer_spawns_and_draws() {
    let mut m = model_with(config());
    let at = Point2 { x: 12 * UNIT, y: -3 * UNIT };
    mouse_moved(&mut m, at);
    assert_eq!(m.mouse_xy(), at);
    mouse_pressed(&mut m, MouseButton::Left, ElementState::Released);
    mouse_pressed(&mut m, MouseButton::Middle, ElementState::Pressed);
    mouse_pressed(&mut m, MouseButton::Other, ElementState::Pressed);
    assert!(m.flow_particles().is_empty());
    assert!(!m.draw_particle_mode());
    mouse_pressed(&mut m, MouseButton::Left, ElementState::Pressed);
    assert_eq!(m.flow_particles().len(), 1);
    assert_eq!(*m.flow_particles()[0].xy(), at);
    mouse_pressed(&mut m, MouseButton::Right, ElementState::Released);
    assert!(!m.draw_particle_mode());
    mouse_pressed(&mut m, MouseButton::Right, ElementState::Pressed);
    assert!(m.draw_particle_mode());
    assert_eq!(m.flow_particles().len(), 1);
    mouse_released(&mut m, MouseButton::Left);
    assert!(m.draw_particle_mode());
    mouse_released(&mut m, MouseButton::Right);
    assert!(!m.draw_particle_mode());
}

#[test]
fn keys_spawn_quit_and_toggle() {
    let mut m = model_with(config());
    assert!(!key_pressed(&mut m, Key::Space, ElementState::Released));
    assert!(m.flow_particles().is_empty());
    assert!(!key_pressed(&mut m, Key::Space, ElementState::Pressed));
    assert_eq!(m.flow_particles().len(), 1);
    assert!(m.window_rect().contains(*m.flow_particles()[0].xy()));
    assert!(key_pressed(&mut m, Key::Escape, ElementState::Pressed));
    assert!(!key_pressed(&mut m, Key::Escape, ElementState::Released));
    assert!(m.show_ui());
    assert!(!key_pressed(&mut m, Key::Slash, ElementState::Pressed));
    assert!(!m.show_ui());
    assert!(!key_pressed(&mut m, Key::QuestionMark, ElementState::Pressed));
    assert!(m.show_ui());
    assert!(!key_pressed(&mut m, Key::Slash, ElementState::Released));
    assert!(m.show_ui());
    assert!(!key_pressed(&mut m, Key::Other, ElementState::Pressed));
    assert_eq!(m.flow_particles().len(), 1);
}

#[test]
fn a_seed_replays_a_run() {
    let run = |seed: u64| {
        let rect = SimpleRect::from_w_h(420 * UNIT, 420 * UNIT);
        let c = Config { automatically_spawn_particles: true, particle_step_length: UNIT, particle_lifetime: 20 * UNIT, ..config() };
        let mut m = Model::with_config(c, rect, circle(720), luts(), StdRng::seed_from_u64(seed)).unwrap();
        for _ in 0..300 {
            update(&mut m, UNIT);
        }
        m.flow_particles().clone()
    };
    assert_eq!(run(4), run(4));
    assert_ne!(run(4), run(5));
    assert!(!run(4).is_empty());
}
