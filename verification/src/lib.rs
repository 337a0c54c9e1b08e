//! A two-dimensional particle flow field in fixed-point arithmetic.
//!
//! A grid of direction vectors covers a viewport; particles are advected
//! along the nearest vector each tick, age, and retire. Every quantity is an
//! integer count of millionths (see [`fixed::UNIT`]), so each contract is
//! stated over mathematical integers. Unit directions come from a table
//! that the host supplies (see [`trig::TrigTable`]), noise samples from the
//! host's kernel, and random draws from a seedable generator.

pub mod color;
pub mod fixed;
pub mod flow_particle;
pub mod flow_vector;
pub mod grid;
pub mod lut_manager;
pub mod model;
pub mod palette;
pub mod random;
pub mod random_color;
pub mod trig;
