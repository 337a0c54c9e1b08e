//! The tunables of a simulation and their validation.

use crate::fixed::{clamp64, mul_div, trunc_div, Point2};
use crate::grid::{MAX_COORD, MAX_GRID_DIM};
use crate::model::constants::{
    DEFAULT_AUTO_SPAWN_PARTICLE_COUNT_LIMIT, DEFAULT_MAX_WEIGHT, DEFAULT_MIN_WEIGHT,
    DEFAULT_NOISE_SCALE, DEFAULT_OUTSIDE_BOUNDS_TIMEOUT, DEFAULT_PARTICLE_LIFETIME,
    DEFAULT_STEP_LENGTH, DEFAULT_VECTOR_MAGNITUDE, DEFAULT_VECTOR_SPACING, NOISE_REFERENCE_WIDTH,
};
use vstd::prelude::*;

verus! {

/// Why a configuration is refused.
#[derive(Clone, Copy, Debug, PartialEq, Eq, Structural)]
pub enum ConfigError {
    /// The vector spacing is zero or negative.
    ZeroSpacing,
    /// The vector magnitude is zero or negative.
    ZeroMagnitude,
    /// The grid has no rows or no columns.
    EmptyGrid,
    /// A value lies beyond what the library supports.
    OutOfRange,
}

impl ConfigError {
    /// What is wrong, in words.
    pub open spec fn message(&self) -> Seq<char> {
        match self {
            ConfigError::ZeroSpacing => "vector spacing must be greater than zero"@,
            ConfigError::ZeroMagnitude => "vector magnitude must be greater than zero"@,
            ConfigError::EmptyGrid => "the grid needs at least one row and one column"@,
            ConfigError::OutOfRange => "a dimension is beyond the supported range"@,
        }
    }

    /// What is wrong, in words.
    pub fn to_string(&self) -> (s: String)
        ensures
            s@ == self.message(),
    {
        match self {
            ConfigError::ZeroSpacing => "vector spacing must be greater than zero".to_owned(),
            ConfigError::ZeroMagnitude => "vector magnitude must be greater than zero".to_owned(),
            ConfigError::EmptyGrid => "the grid needs at least one row and one column".to_owned(),
            ConfigError::OutOfRange => "a dimension is beyond the supported range".to_owned(),
        }
    }
}

/// Every tunable of a simulation. Fixed-point values are in millionths.
#[derive(Clone, Copy, Debug, PartialEq, Eq, Structural)]
pub struct Config {
    /// Rows of the vector grid.
    pub grid_width: usize,
    /// Columns of the vector grid.
    pub grid_height: usize,
    /// Distance between neighbouring vectors.
    pub vector_spacing: i64,
    /// Magnitude of every vector.
    pub vector_magnitude: i64,
    /// Seed handed to the noise kernel.
    pub noise_seed: u32,
    /// Distance in noise space between neighbouring cells.
    pub noise_scale: i64,
    /// Age at which a particle retires.
    pub particle_lifetime: i64,
    /// Smallest weight of a spawned particle.
    pub particle_min_weight: i64,
    /// Largest weight of a spawned particle.
    pub particle_max_weight: i64,
    /// Base step per tick, to which each particle adds its own.
    pub particle_step_length: i64,
    /// Population below which auto-spawn adds a particle.
    pub particle_auto_spawn_limit: usize,
    /// Time outside the viewport after which a particle retires.
    pub outside_bounds_timeout: i64,
    /// Whether a tick may spawn a particle by itself.
    pub automatically_spawn_particles: bool,
}

/// The number of whole cells of size `spacing` that fit into `extent`: the
/// quotient rounded down. Whatever lies beyond the last whole cell stays
/// uncovered. A count above [`MAX_GRID_DIM`] is reported as one more than
/// that.
pub open spec fn cells_across(extent: int, spacing: int) -> int
    recommends
        spacing > 0,
{
    if extent <= 0 {
        0
    } else if extent / spacing > MAX_GRID_DIM {
        MAX_GRID_DIM + 1
    } else {
        extent / spacing
    }
}

/// The number of whole cells of size `spacing` that fit into `extent`.
pub fn count_cells(extent: i64, spacing: i64) -> (n: usize)
    requires
        spacing > 0,
    ensures
        n == cells_across(extent as int, spacing as int),
        n <= MAX_GRID_DIM + 1,
{
    if extent <= 0 {
        0
    } else {
        let q: i64 = extent / spacing;
        if q > MAX_GRID_DIM as i64 {
            MAX_GRID_DIM + 1
        } else {
            assert(q >= 0) by (nonlinear_arith)
                requires
                    extent > 0,
                    spacing > 0,
                    q == extent / spacing,
            ;
            q as usize
        }
    }
}

/// The noise scale for a viewport `width` wide: the default on a viewport
/// at least as wide as the reference, and larger in proportion on a
/// narrower one.
pub open spec fn noise_scale_for(width: int) -> int {
    if 0 < width < NOISE_REFERENCE_WIDTH {
        clamp64(trunc_div(DEFAULT_NOISE_SCALE * NOISE_REFERENCE_WIDTH, width))
    } else {
        DEFAULT_NOISE_SCALE as int
    }
}

impl Config {
    /// The configuration a viewport of `window_size` starts with.
    pub open spec fn spec_for_window(window_size: Point2, noise_seed: u32) -> Config {
        Config {
            grid_width: cells_across(window_size.x as int, DEFAULT_VECTOR_SPACING as int) as usize,
            grid_height: cells_across(window_size.y as int, DEFAULT_VECTOR_SPACING as int) as usize,
            vector_spacing: DEFAULT_VECTOR_SPACING,
            vector_magnitude: DEFAULT_VECTOR_MAGNITUDE,
            noise_seed,
            noise_scale: noise_scale_for(window_size.x as int) as i64,
            particle_lifetime: DEFAULT_PARTICLE_LIFETIME,
            particle_min_weight: DEFAULT_MIN_WEIGHT,
            particle_max_weight: DEFAULT_MAX_WEIGHT,
            particle_step_length: DEFAULT_STEP_LENGTH,
            particle_auto_spawn_limit: DEFAULT_AUTO_SPAWN_PARTICLE_COUNT_LIMIT,
            outside_bounds_timeout: DEFAULT_OUTSIDE_BOUNDS_TIMEOUT,
            automatically_spawn_particles: true,
        }
    }

    /// The configuration a viewport of `window_size` starts with: as many
    /// whole cells of the default spacing as fit, the default tunables, and
    /// a noise scale that suits the width.
    pub fn for_window(window_size: Point2, noise_seed: u32) -> (c: Config)
        ensures
            c == Config::spec_for_window(window_size, noise_seed),
    {
        let noise_scale: i64 = if 0 < window_size.x && window_size.x < NOISE_REFERENCE_WIDTH {
            mul_div(DEFAULT_NOISE_SCALE, NOISE_REFERENCE_WIDTH, window_size.x)
        } else {
            DEFAULT_NOISE_SCALE
        };
        Config {
            grid_width: count_cells(window_size.x, DEFAULT_VECTOR_SPACING),
            grid_height: count_cells(window_size.y, DEFAULT_VECTOR_SPACING),
            vector_spacing: DEFAULT_VECTOR_SPACING,
            vector_magnitude: DEFAULT_VECTOR_MAGNITUDE,
            noise_seed,
            noise_scale,
            particle_lifetime: DEFAULT_PARTICLE_LIFETIME,
            particle_min_weight: DEFAULT_MIN_WEIGHT,
            particle_max_weight: DEFAULT_MAX_WEIGHT,
            particle_step_length: DEFAULT_STEP_LENGTH,
            particle_auto_spawn_limit: DEFAULT_AUTO_SPAWN_PARTICLE_COUNT_LIMIT,
            outside_bounds_timeout: DEFAULT_OUTSIDE_BOUNDS_TIMEOUT,
            automatically_spawn_particles: true,
        }
    }

    /// The first fault of the configuration, if it has one.
    pub open spec fn fault(&self) -> Option<ConfigError> {
        if self.vector_spacing <= 0 {
            Some(ConfigError::ZeroSpacing)
        } else if self.vector_magnitude <= 0 {
            Some(ConfigError::ZeroMagnitude)
        } else if self.grid_width == 0 || self.grid_height == 0 {
            Some(ConfigError::EmptyGrid)
        } else if self.vector_spacing > MAX_COORD || self.vector_magnitude > MAX_COORD
            || self.grid_width > MAX_GRID_DIM || self.grid_height > MAX_GRID_DIM {
            Some(ConfigError::OutOfRange)
        } else {
            None
        }
    }

    /// The two configurations build the same field: they agree on the
    /// grid, the vectors and the noise.
    pub open spec fn same_field(&self, other: Config) -> bool {
        &&& self.grid_width == other.grid_width
        &&& self.grid_height == other.grid_height
        &&& self.vector_spacing == other.vector_spacing
        &&& self.vector_magnitude == other.vector_magnitude
        &&& self.noise_seed == other.noise_seed
        &&& self.noise_scale == other.noise_scale
    }

    /// Whether the two configurations build the same field.
    pub fn builds_same_field(&self, other: &Config) -> (b: bool)
        ensures
            b == self.same_field(*other),
    {
        self.grid_width == other.grid_width && self.grid_height == other.grid_height
            && self.vector_spacing == other.vector_spacing && self.vector_magnitude
            == other.vector_magnitude && self.noise_seed == other.noise_seed && self.noise_scale
            == other.noise_scale
    }

    /// The configuration has no fault.
    pub open spec fn valid(&self) -> bool {
        self.fault() is None
    }

    /// Accepts the configuration or names its first fault.
    pub fn validate(&self) -> (r: Result<(), ConfigError>)
        ensures
            r == (match self.fault() {
                Some(e) => Err::<(), ConfigError>(e),
                None => Ok::<(), ConfigError>(()),
            }),
            r is Ok <==> self.valid(),
    {
        if self.vector_spacing <= 0 {
            Err(ConfigError::ZeroSpacing)
        } else if self.vector_magnitude <= 0 {
            Err(ConfigError::ZeroMagnitude)
        } else if self.grid_width == 0 || self.grid_height == 0 {
            Err(ConfigError::EmptyGrid)
        } else if self.vector_spacing > MAX_COORD || self.vector_magnitude > MAX_COORD
            || self.grid_width > MAX_GRID_DIM || self.grid_height > MAX_GRID_DIM {
            Err(ConfigError::OutOfRange)
        } else {
            Ok(())
        }
    }
}

} // verus!
