use flow_field::fixed::{Point2, HALF_TURN, UNIT};
use flow_field::flow_vector::{
    canonical_heading, curve_heading_of, noise_heading_of, noise_vectors, right_hand_curve_vectors,
    FieldError, FlowVector, FlowVectorFieldBuilder,
};
use flow_field::grid::{GridLayout, MAX_COORD};
use flow_field::model::config::ConfigError;
use flow_field::trig::TrigTable;

fn circle(steps: usize) -> TrigTable {
    let mut entries = Vec::new();
    for i in 0..steps {
        let angle = (i as f64) * std::f64::consts::TAU / (steps as f64);
        entries.push(Point2 {
            x: (angle.cos() * 1_000_000.0).round() as i64,
            y: (angle.sin() * 1_000_000.0).round() as i64,
        });
    }
    TrigTable::new(entries).unwrap()
}

fn layout(width: usize, height: usize) -> GridLayout {
    GridLayout { origin: Point2 { x: -100 * UNIT, y: 50 * UNIT }, spacing: 35 * UNIT, width, height }
}

#[test]
fn zero_magnitude_is_refused() {
    let at = Point2 { x: 1, y: 2 };
    assert_eq!(FlowVector::new(at, 0), Err(ConfigError::ZeroMagnitude));
    assert_eq!(FlowVector::new(at, -5), Err(ConfigError::ZeroMagnitude));
    assert_eq!(FlowVector::new(at, 1), Ok(FlowVector { xy: at, heading: 0, magnitude: 1 }));
}

#[test]
fn headings_stay_canonical() {
    assert_eq!(canonical_heading(0), 0);
    assert_eq!(canonical_heading(HALF_TURN), HALF_TURN);
    assert_eq!(canonical_heading(-HALF_TURN), HALF_TURN);
    assert_eq!(canonical_heading(HALF_TURN + 1), -HALF_TURN + 1);
    assert_eq!(canonical_heading(270 * UNIT), -90 * UNIT);
    assert_eq!(canonical_heading(-270 * UNIT), 90 * UNIT);
    assert_eq!(canonical_heading(720 * UNIT + 5), 5);
    let mut v = FlowVector::new(Point2 { x: 0, y: 0 }, 15 * UNIT).unwrap();
    v.rotate(100 * UNIT);
    assert_eq!(v.heading(), 100 * UNIT);
    v.rotate(100 * UNIT);
    assert_eq!(v.heading(), -160 * UNIT);
    v.rotate(i64::MAX);
    assert_eq!(v.heading(), canonical_heading(((-160 * UNIT) as i128 + i64::MAX as i128).rem_euclid(360_000_000) as i64));
    assert_eq!(v.magnitude, 15 * UNIT);
    assert_eq!(v.position(), Point2 { x: 0, y: 0 });
}

#[test]
fn direction_is_magnitude_along_the_heading() {
    let trig = circle(360);
    let mut v = FlowVector::new(Point2 { x: 3, y: 4 }, 15 * UNIT).unwrap();
    assert_eq!(v.direction(&trig), Point2 { x: 15 * UNIT, y: 0 });
    v.rotate(90 * UNIT);
    assert_eq!(v.direction(&trig), Point2 { x: 0, y: 15 * UNIT });
    v.rotate(90 * UNIT);
    assert_eq!(v.direction(&trig), Point2 { x: -15 * UNIT, y: 0 });
    v.rotate(-120 * UNIT);
    assert_eq!(v.direction(&trig), Point2 { x: 7_500_000, y: 12_990_375 });
}

#[test]
fn curve_heading_is_the_share_of_half_a_turn() {
    assert_eq!(curve_heading_of(0, 10), 0);
    assert_eq!(curve_heading_of(1, 10), 18 * UNIT);
    assert_eq!(curve_heading_of(5, 10), 90 * UNIT);
    assert_eq!(curve_heading_of(9, 10), 162 * UNIT);
    assert_eq!(curve_heading_of(1, 7), 25_714_285);
    assert_eq!(curve_heading_of(6, 7), 154_285_714);
}

#[test]
fn right_hand_curve_field_sweeps_over_the_columns() {
    let l = layout(4, 6);
    let field = right_hand_curve_vectors(&l, 15 * UNIT).unwrap();
    assert_eq!(field.len(), 24);
    for col in 0..6 {
        for row in 0..4 {
            let v = field[l.index(row, col)];
            assert_eq!(v.heading(), (col as i64) * 180 * UNIT / 6);
            assert_eq!(v.heading(), field[l.index(0, col)].heading());
            assert_eq!(v.position(), l.position(row, col));
            assert_eq!(v.magnitude, 15 * UNIT);
        }
    }
    assert_eq!(field[0].heading(), 0);
    assert_eq!(field[23].heading(), 150 * UNIT);
}

#[test]
fn curve_field_is_the_same_every_time() {
    let l = layout(7, 5);
    let first = right_hand_curve_vectors(&l, 15 * UNIT).unwrap();
    let second = right_hand_curve_vectors(&l, 15 * UNIT).unwrap();
    assert_eq!(first, second);
}

#[test]
fn noise_samples_map_onto_a_full_turn() {
    assert_eq!(noise_heading_of(-UNIT), 0);
    assert_eq!(noise_heading_of(-UNIT / 2), 90 * UNIT);
    assert_eq!(noise_heading_of(0), HALF_TURN);
    assert_eq!(noise_heading_of(UNIT / 2), -90 * UNIT);
    assert_eq!(noise_heading_of(UNIT), 0);
    assert_eq!(noise_heading_of(-3 * UNIT), 0);
    assert_eq!(noise_heading_of(3 * UNIT), 0);
    assert_eq!(noise_heading_of(i64::MIN), 0);
    assert_eq!(noise_heading_of(i64::MAX), 0);
    assert_eq!(noise_heading_of(-999_999), 0);
    assert_eq!(noise_heading_of(-999_998), 360);
}

#[test]
fn noise_field_takes_one_sample_per_cell() {
    let l = layout(3, 2);
    let samples: Vec<i64> = vec![-UNIT, -UNIT / 2, 0, UNIT / 2, UNIT, UNIT / 4];
    let field = noise_vectors(&l, 15 * UNIT, &samples).unwrap();
    assert_eq!(field.len(), 6);
    let headings: Vec<i64> = field.iter().map(|v| v.heading()).collect();
    assert_eq!(headings, vec![0, 90 * UNIT, HALF_TURN, -90 * UNIT, 0, -135 * UNIT]);
    for col in 0..2 {
        for row in 0..3 {
            assert_eq!(field[l.index(row, col)].position(), l.position(row, col));
        }
    }
    let again = noise_vectors(&l, 15 * UNIT, &samples).unwrap();
    assert_eq!(field, again);
    assert_eq!(noise_vectors(&l, 15 * UNIT, &vec![0; 5]), Err(FieldError::SampleCount));
    assert_eq!(noise_vectors(&l, 15 * UNIT, &vec![0; 7]), Err(FieldError::SampleCount));
}

#[test]
fn degenerate_layouts_are_refused() {
    let good = layout(3, 2);
    let samples: Vec<i64> = vec![0; 6];
    let zero_spacing = GridLayout { spacing: 0, ..good };
    assert_eq!(right_hand_curve_vectors(&zero_spacing, UNIT), Err(ConfigError::ZeroSpacing));
    assert_eq!(
        noise_vectors(&zero_spacing, UNIT, &samples),
        Err(FieldError::Config(ConfigError::ZeroSpacing))
    );
    assert_eq!(right_hand_curve_vectors(&good, 0), Err(ConfigError::ZeroMagnitude));
    let no_rows = GridLayout { width: 0, ..good };
    assert_eq!(right_hand_curve_vectors(&no_rows, UNIT), Err(ConfigError::EmptyGrid));
    let no_cols = GridLayout { height: 0, ..good };
    assert_eq!(right_hand_curve_vectors(&no_cols, UNIT), Err(ConfigError::EmptyGrid));
    let wide = GridLayout { width: 4097, ..good };
    assert_eq!(right_hand_curve_vectors(&wide, UNIT), Err(ConfigError::OutOfRange));
    let sparse = GridLayout { spacing: MAX_COORD + 1, ..good };
    assert_eq!(right_hand_curve_vectors(&sparse, UNIT), Err(ConfigError::OutOfRange));
    let away = GridLayout { origin: Point2 { x: 2 * MAX_COORD + 1, y: 0 }, ..good };
    assert_eq!(right_hand_curve_vectors(&away, UNIT), Err(ConfigError::OutOfRange));
    assert_eq!(right_hand_curve_vectors(&good, MAX_COORD + 1), Err(ConfigError::OutOfRange));
}

#[test]
fn builders_dispatch_by_kind() {
    let l = layout(3, 2);
    let samples: Vec<i64> = vec![0; 6];
    let curve = FlowVectorFieldBuilder::RightHandCurve;
    assert!(!curve.uses_noise());
    assert_eq!(curve.build(&l, UNIT, &Vec::new()), Ok(right_hand_curve_vectors(&l, UNIT).unwrap()));
    assert_eq!(curve.build(&l, 0, &Vec::new()), Err(FieldError::Config(ConfigError::ZeroMagnitude)));
    let kinds = [
        FlowVectorFieldBuilder::BasicMulti,
        FlowVectorFieldBuilder::Billow,
        FlowVectorFieldBuilder::TerracedBillow,
        FlowVectorFieldBuilder::Fbm,
        FlowVectorFieldBuilder::HybridMulti,
        FlowVectorFieldBuilder::OpenSimplex,
        FlowVectorFieldBuilder::Value,
        FlowVectorFieldBuilder::Worley,
    ];
    for kind in kinds {
        assert!(kind.uses_noise());
        assert_eq!(kind.build(&l, UNIT, &samples), noise_vectors(&l, UNIT, &samples));
        assert_eq!(kind.build(&l, UNIT, &Vec::new()), Err(FieldError::SampleCount));
        let expected = if kind == FlowVectorFieldBuilder::TerracedBillow { Some(6) } else { None };
        assert_eq!(kind.octaves(), expected);
    }
    assert_eq!(curve.octaves(), None);
}
