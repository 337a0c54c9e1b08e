//! The values a fresh model starts with, in millionths where they are
//! fixed-point quantities.

use vstd::prelude::*;

verus! {

/// Age gained per tick: 0.1.
pub const DEFAULT_AGING_RATE: i64 = 100_000;

/// Population below which auto-spawn adds a particle.
pub const DEFAULT_AUTO_SPAWN_PARTICLE_COUNT_LIMIT: usize = 1000;

/// Largest weight of a spawned particle: 5.0.
pub const DEFAULT_MAX_WEIGHT: i64 = 5_000_000;

/// Smallest weight of a spawned particle: 1.0.
pub const DEFAULT_MIN_WEIGHT: i64 = 1_000_000;

/// Time a particle may spend outside the viewport: 60 frames.
pub const DEFAULT_OUTSIDE_BOUNDS_TIMEOUT: i64 = 60_000_000;

/// Age at which a particle retires: 100.0.
pub const DEFAULT_PARTICLE_LIFETIME: i64 = 100_000_000;

/// Base step per tick: one pixel.
pub const DEFAULT_STEP_LENGTH: i64 = 1_000_000;

/// Magnitude of every field vector: 15 pixels.
pub const DEFAULT_VECTOR_MAGNITUDE: i64 = 15_000_000;

/// Distance between neighbouring field vectors: 35 pixels.
pub const DEFAULT_VECTOR_SPACING: i64 = 35_000_000;

/// Noise scale on a viewport at least as wide as the reference: 0.05.
pub const DEFAULT_NOISE_SCALE: i64 = 50_000;

/// The viewport width the default noise scale is tuned for: 1920 pixels.
pub const NOISE_REFERENCE_WIDTH: i64 = 1_920_000_000;

/// Noise seeds are drawn below this bound.
pub const NOISE_SEED_LIMIT: u32 = 100_000;

/// Noise offsets are drawn below this bound: 1000.0.
pub const NOISE_OFFSET_LIMIT: i64 = 1_000_000_000;

} // verus!
