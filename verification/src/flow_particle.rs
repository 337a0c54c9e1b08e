//! Particles and the step each one takes per tick.

use crate::color::Color;
use crate::fixed::{add_sat, clamp64, scale, scaled, Point2};
use crate::model::constants::DEFAULT_AGING_RATE;
use crate::model::enums::ParticleShape;
use crate::trig::{slot_of, TrigTable};
use vstd::prelude::*;

verus! {

/// A particle carried along the field.
#[derive(Clone, Copy, Debug, PartialEq, Eq, Structural)]
pub struct FlowParticle {
    /// Time lived so far.
    pub age: i64,
    /// Age gained per tick.
    pub aging_rate: i64,
    /// Drawing color.
    pub color: Color,
    /// Where the particle was before its last step.
    pub previous_xy: Point2,
    /// The particle's own share of the step per tick.
    pub step_length: i64,
    /// Drawing size.
    pub weight: i64,
    /// Where the particle is.
    pub xy: Point2,
    /// Time spent outside the viewport since it was last inside.
    pub time_outside_bounds: i64,
    /// Drawing outline.
    pub shape: ParticleShape,
}

/// What a particle is built from.
#[derive(Clone, Copy, Debug, PartialEq, Eq, Structural)]
pub struct FlowParticleBuilderFnOptions {
    pub age: i64,
    pub aging_rate: i64,
    pub color: Color,
    pub step_length: i64,
    pub weight: i64,
    pub xy: Point2,
    pub shape: ParticleShape,
}

impl FlowParticleBuilderFnOptions {
    /// The particle these options describe: at rest at `xy`, inside bounds.
    pub open spec fn particle(self) -> FlowParticle {
        FlowParticle {
            age: self.age,
            aging_rate: self.aging_rate,
            color: self.color,
            previous_xy: self.xy,
            step_length: self.step_length,
            weight: self.weight,
            xy: self.xy,
            time_outside_bounds: 0,
            shape: self.shape,
        }
    }
}

/// One coordinate after a step of length `step` along the unit component
/// `unit`.
pub open spec fn moved(at: int, step: int, unit: int) -> int {
    clamp64(at + clamp64(scaled(step, unit)))
}

impl FlowParticle {
    /// The particle after one step along the unit direction `unit`, with
    /// `base_step` added to its own step length: it has aged by its aging
    /// rate, remembers where it was, and has moved.
    pub open spec fn advanced(self, unit: Point2, base_step: i64) -> FlowParticle {
        let step = clamp64(self.step_length + base_step);
        FlowParticle {
            age: clamp64(self.age + self.aging_rate) as i64,
            previous_xy: self.xy,
            xy: Point2 {
                x: moved(self.xy.x as int, step, unit.x as int) as i64,
                y: moved(self.xy.y as int, step, unit.y as int) as i64,
            },
            ..self
        }
    }

    /// The particle after `delta` more time, outside the viewport or not:
    /// outside, the time adds up; inside, it starts again at zero.
    pub open spec fn timed(self, delta: i64, is_outside: bool) -> FlowParticle {
        FlowParticle {
            time_outside_bounds: if is_outside {
                clamp64(self.time_outside_bounds + delta) as i64
            } else {
                0
            },
            ..self
        }
    }

    /// The particle has reached `lifetime` or has been outside for
    /// `timeout`.
    pub open spec fn expired(self, lifetime: i64, timeout: i64) -> bool {
        self.age >= lifetime || self.time_outside_bounds >= timeout
    }

    /// A particle at rest at `xy`.
    pub fn new(
        age: i64,
        aging_rate: i64,
        color: Color,
        step_length: i64,
        weight: i64,
        xy: Point2,
        shape: ParticleShape,
    ) -> (p: FlowParticle)
        ensures
            p == (FlowParticleBuilderFnOptions {
                age,
                aging_rate,
                color,
                step_length,
                weight,
                xy,
                shape,
            }).particle(),
    {
        FlowParticle {
            age,
            aging_rate,
            color,
            previous_xy: xy,
            step_length,
            weight,
            xy,
            time_outside_bounds: 0,
            shape,
        }
    }

    /// The particle that `options` describe.
    pub fn from_options(options: FlowParticleBuilderFnOptions) -> (p: FlowParticle)
        ensures
            p == options.particle(),
    {
        FlowParticle::new(
            options.age,
            options.aging_rate,
            options.color,
            options.step_length,
            options.weight,
            options.xy,
            options.shape,
        )
    }

    /// Takes one step along the heading `nearest_angle`, whose unit
    /// direction `trig` supplies, of the particle's own step length plus
    /// `step_length`.
    pub fn update(&mut self, nearest_angle: i64, step_length: i64, trig: &TrigTable)
        ensures
            *final(self) == old(self).advanced(
                trig@[slot_of(nearest_angle as int, trig@.len() as int)],
                step_length,
            ),
    {
        let unit: Point2 = trig.unit(nearest_angle);
        let step: i64 = add_sat(self.step_length, step_length);
        self.age = add_sat(self.age, self.aging_rate);
        self.previous_xy = self.xy;
        self.xy = Point2 {
            x: add_sat(self.xy.x, scale(step, unit.x)),
            y: add_sat(self.xy.y, scale(step, unit.y)),
        };
    }

    /// Time lived so far.
    pub fn age(&self) -> (a: i64)
        ensures
            a == self.age,
    {
        self.age
    }

    /// Where the particle is.
    pub fn xy(&self) -> (p: &Point2)
        ensures
            *p == self.xy,
    {
        &self.xy
    }

    /// Time spent outside the viewport since it was last inside.
    pub fn time_outside_bounds(&self) -> (t: i64)
        ensures
            t == self.time_outside_bounds,
    {
        self.time_outside_bounds
    }

    /// Accounts for `delta_time` spent outside the viewport, or for being
    /// inside.
    pub fn update_bounds_time(&mut self, delta_time: i64, is_outside: bool)
        ensures
            *final(self) == old(self).timed(delta_time, is_outside),
    {
        if is_outside {
            self.time_outside_bounds = add_sat(self.time_outside_bounds, delta_time);
        } else {
            self.time_outside_bounds = 0;
        }
    }

    /// Drawing size.
    pub fn weight(&self) -> (w: i64)
        ensures
            w == self.weight,
    {
        self.weight
    }

    /// Whether the particle has reached `lifetime` or has been outside for
    /// `timeout`.
    pub fn is_expired(&self, lifetime: i64, timeout: i64) -> (b: bool)
        ensures
            b == self.expired(lifetime, timeout),
    {
        self.age >= lifetime || self.time_outside_bounds >= timeout
    }
}

impl Default for FlowParticle {
    fn default() -> (p: FlowParticle)
        ensures
            p == (FlowParticleBuilderFnOptions {
                age: 0,
                aging_rate: DEFAULT_AGING_RATE,
                color: Color { r: 0, g: 0, b: 0, a: 255 },
                step_length: 1_000_000,
                weight: 1_000_000,
                xy: Point2 { x: 0, y: 0 },
                shape: ParticleShape::Circle,
            }).particle(),
    {
        FlowParticle::new(
            0,
            DEFAULT_AGING_RATE,
            Color::black(),
            1_000_000,
            1_000_000,
            Point2 { x: 0, y: 0 },
            ParticleShape::Circle,
        )
    }
}

} // verus!
