//! The simulation model: viewport, grid, particles and their tunables.

pub mod config;
pub mod constants;
pub mod enums;
pub mod update;
pub mod view;

use crate::color::Color;
use crate::fixed::{
    clamp64, clamp_between, lemma_mapped_within, map_range, mapped, saturate, trunc_div, Point2,
    UNIT,
};
use crate::flow_particle::{FlowParticle, FlowParticleBuilderFnOptions};
use crate::flow_vector::{
    is_field_on, right_hand_curve_field, right_hand_curve_vectors, FieldError, FlowVector,
    FlowVectorFieldBuilder,
};
use crate::grid::{
    lemma_cells_bounded, lemma_index_covers, lemma_nearest_clamps, GridLayout, MAX_COORD,
};
use crate::lut_manager::{LutData, LutError, LutManager};
use crate::model::config::{Config, ConfigError};
use crate::model::constants::{DEFAULT_AGING_RATE, NOISE_OFFSET_LIMIT, NOISE_SEED_LIMIT};
use crate::model::enums::{Background, ParticleShape, RedrawBackground};
use crate::random::random_below;
use crate::trig::{valid_entries, TrigTable};
use rand::rngs::StdRng;
use vstd::prelude::*;

verus! {

/// An upright rectangle, given by its four edges.
#[derive(Clone, Copy, Debug, PartialEq, Eq, Structural)]
pub struct SimpleRect {
    pub left: i64,
    pub right: i64,
    pub top: i64,
    pub bottom: i64,
}

impl SimpleRect {
    /// The rectangle of width `w` and height `h` centred on the origin.
    pub open spec fn of_size(w: i64, h: i64) -> SimpleRect {
        SimpleRect {
            left: (-trunc_div(w as int, 2)) as i64,
            right: trunc_div(w as int, 2) as i64,
            top: trunc_div(h as int, 2) as i64,
            bottom: (-trunc_div(h as int, 2)) as i64,
        }
    }

    /// `point` lies inside the rectangle or on its edge.
    pub open spec fn spec_contains(&self, point: Point2) -> bool {
        point.x >= self.left && point.x <= self.right && point.y >= self.bottom && point.y
            <= self.top
    }

    /// The edges are in order and within the supported range.
    pub open spec fn wf(&self) -> bool {
        &&& -MAX_COORD <= self.left <= self.right <= MAX_COORD
        &&& -MAX_COORD <= self.bottom <= self.top <= MAX_COORD
    }

    /// The rectangle of width `w` and height `h` centred on the origin.
    pub fn from_w_h(w: i64, h: i64) -> (r: SimpleRect)
        ensures
            r == SimpleRect::of_size(w, h),
    {
        SimpleRect { left: -(w / 2), right: w / 2, top: h / 2, bottom: -(h / 2) }
    }

    /// Whether `point` lies inside the rectangle or on its edge.
    pub fn contains(&self, point: Point2) -> (b: bool)
        ensures
            b == self.spec_contains(point),
    {
        point.x >= self.left && point.x <= self.right && point.y >= self.bottom && point.y
            <= self.top
    }

    /// Whether the edges are in order and within the supported range.
    pub fn is_wf(&self) -> (b: bool)
        ensures
            b == self.wf(),
    {
        -MAX_COORD <= self.left && self.left <= self.right && self.right <= MAX_COORD
            && -MAX_COORD <= self.bottom && self.bottom <= self.top && self.top <= MAX_COORD
    }
}

/// Why a model could not be made.
#[derive(Clone, Copy, Debug, PartialEq, Eq, Structural)]
pub enum ModelError {
    /// The configuration or the viewport is refused.
    Config(ConfigError),
    /// No color lookup table is registered.
    NoLut,
}

/// The random shares that one spawn uses, each at least zero and less than
/// one.
#[derive(Clone, Copy, Debug, PartialEq, Eq, Structural)]
pub struct SpawnDraws {
    /// The share of the lifetime that the particle starts with.
    pub age: i64,
    /// The place in the lookup table that gives the color.
    pub color: i64,
    /// The place between the smallest and the largest weight.
    pub weight: i64,
    /// The particle's own step length.
    pub step: i64,
}

impl SpawnDraws {
    /// Each draw is a share of one.
    pub open spec fn valid(&self) -> bool {
        &&& 0 <= self.age < UNIT
        &&& 0 <= self.color < UNIT
        &&& 0 <= self.weight < UNIT
        &&& 0 <= self.step < UNIT
    }
}

/// The entry of the lookup table that the share `draw` selects: 255 times
/// the share, rounded down, kept inside the table.
pub open spec fn color_index(draw: int) -> int {
    clamp_between(draw * 255 / (UNIT as int), 0, 255)
}

/// What a model is, as contracts see it.
pub struct ModelView {
    pub config: Config,
    pub window_rect: SimpleRect,
    pub background: Background,
    pub redraw_background: RedrawBackground,
    pub builder: FlowVectorFieldBuilder,
    /// The layout that the current vectors were built on.
    pub layout: GridLayout,
    pub flow_vectors: Seq<FlowVector>,
    pub flow_particles: Seq<FlowParticle>,
    pub luts: LutManager,
    pub current_lut: Seq<char>,
    /// The channels of the current lookup table.
    pub lut: LutData,
    pub noise_offset: Point2,
    pub particle_shape: ParticleShape,
    pub trig: Seq<Point2>,
    /// Where the pointer was last seen.
    pub mouse_xy: Point2,
    /// Whether particles are to be spawned at the pointer.
    pub draw_particle_mode: bool,
    pub show_ui: bool,
    /// Whether what the field is built from has changed since it was built.
    pub regeneration_due: bool,
}

impl ModelView {
    /// Where a grid built now would start: the lower left corner of the
    /// viewport moved inward by one spacing.
    pub open spec fn origin(&self) -> Point2 {
        Point2 {
            x: (self.window_rect.left + self.config.vector_spacing) as i64,
            y: (self.window_rect.bottom + self.config.vector_spacing) as i64,
        }
    }

    /// The layout of a grid built now.
    pub open spec fn fresh_layout(&self) -> GridLayout {
        GridLayout {
            origin: self.origin(),
            spacing: self.config.vector_spacing,
            width: self.config.grid_width,
            height: self.config.grid_height,
        }
    }

    /// The invariant of a model.
    pub open spec fn wf(&self) -> bool {
        &&& self.config.valid()
        &&& self.window_rect.wf()
        &&& self.layout.wf()
        &&& is_field_on(self.flow_vectors, self.layout, self.flow_vectors[0].magnitude)
        &&& self.luts.wf()
        &&& self.lut.wf()
        &&& self.luts.lookup(self.current_lut) matches Some(bytes) && self.lut.holds(bytes)
        &&& valid_entries(self.trig)
        &&& 0 <= self.noise_offset.x < NOISE_OFFSET_LIMIT
        &&& 0 <= self.noise_offset.y < NOISE_OFFSET_LIMIT
    }

    /// The particle that a spawn at `xy` with the draws `d` makes: its age is
    /// the drawn share of the lifetime, its weight lies the drawn share of
    /// the way between the smallest and the largest weight, its color is the
    /// drawn entry of the current lookup table, and its own step length is
    /// the drawn share of one.
    pub open spec fn spawned(&self, xy: Point2, d: SpawnDraws) -> FlowParticle {
        (FlowParticleBuilderFnOptions {
            age: mapped(d.age as int, 0, self.config.particle_lifetime as int) as i64,
            aging_rate: DEFAULT_AGING_RATE,
            color: Color {
                r: self.lut.red@[color_index(d.color as int)],
                g: self.lut.green@[color_index(d.color as int)],
                b: self.lut.blue@[color_index(d.color as int)],
                a: 255,
            },
            step_length: d.step,
            weight: mapped(
                d.weight as int,
                self.config.particle_min_weight as int,
                self.config.particle_max_weight as int,
            ) as i64,
            xy,
            shape: self.particle_shape,
        }).particle()
    }

    /// The point that lies the share `u` of the way across the viewport and
    /// the share `v` of the way up.
    pub open spec fn point_at(&self, u: i64, v: i64) -> Point2 {
        Point2 {
            x: mapped(u as int, self.window_rect.left as int, self.window_rect.right as int) as i64,
            y: mapped(v as int, self.window_rect.bottom as int, self.window_rect.top as int) as i64,
        }
    }

    /// The point in noise space at which the sample for cell (`row`, `col`)
    /// is taken: from the noise offset, the column's number of noise scales
    /// along x and the row's number along y.
    pub open spec fn sample_point(&self, row: int, col: int) -> Point2 {
        Point2 {
            x: clamp64(col * self.config.noise_scale + self.noise_offset.x) as i64,
            y: clamp64(row * self.config.noise_scale + self.noise_offset.y) as i64,
        }
    }

    /// The sample points of all cells of a grid built now, in storage order.
    pub open spec fn sample_points(&self) -> Seq<Point2> {
        Seq::new(
            self.fresh_layout().cells() as nat,
            |i: int|
                self.sample_point(self.fresh_layout().row_of(i), self.fresh_layout().col_of(i)),
        )
    }

    /// The model after its field was built anew from `samples`.
    pub open spec fn regenerated(&self, samples: Seq<i64>) -> ModelView {
        ModelView {
            layout: self.fresh_layout(),
            flow_vectors: self.builder.field(
                self.fresh_layout(),
                self.config.vector_magnitude,
                samples,
            ),
            background: Background::Vectors,
            redraw_background: RedrawBackground::Pending,
            regeneration_due: false,
            ..*self
        }
    }

    /// The heading of the vector nearest to `xy`; zero where the grid has no
    /// such vector, which a well-formed model rules out.
    pub open spec fn heading_at(&self, xy: Point2) -> int {
        let i = self.layout.nearest_index(xy);
        if 0 <= i < self.flow_vectors.len() {
            self.flow_vectors[i].heading as int
        } else {
            0
        }
    }
}

/// The state of one simulation.
pub struct Model {
    config: Config,
    window_rect: SimpleRect,
    background: Background,
    redraw_background: RedrawBackground,
    flow_vector_field_builder_type: FlowVectorFieldBuilder,
    layout: GridLayout,
    flow_vectors: Vec<FlowVector>,
    flow_particles: Vec<FlowParticle>,
    lut_manager: LutManager,
    current_lut: String,
    lut: LutData,
    noise_offset: Point2,
    particle_shape: ParticleShape,
    rng: StdRng,
    trig: TrigTable,
    mouse_xy: Point2,
    draw_particle_mode: bool,
    show_ui: bool,
    regeneration_due: bool,
}

impl View for Model {
    type V = ModelView;

    closed spec fn view(&self) -> ModelView {
        ModelView {
            config: self.config,
            window_rect: self.window_rect,
            background: self.background,
            redraw_background: self.redraw_background,
            builder: self.flow_vector_field_builder_type,
            layout: self.layout,
            flow_vectors: self.flow_vectors@,
            flow_particles: self.flow_particles@,
            luts: self.lut_manager,
            current_lut: self.current_lut@,
            lut: self.lut,
            noise_offset: self.noise_offset,
            particle_shape: self.particle_shape,
            trig: self.trig@,
            mouse_xy: self.mouse_xy,
            draw_particle_mode: self.draw_particle_mode,
            show_ui: self.show_ui,
            regeneration_due: self.regeneration_due,
        }
    }
}

/// The fault for which a model cannot be made from a configuration and a
/// viewport, if there is one.
pub open spec fn setup_fault(config: Config, window_rect: SimpleRect) -> Option<ConfigError> {
    match config.fault() {
        Some(e) => Some(e),
        None => if window_rect.wf() {
            None
        } else {
            Some(ConfigError::OutOfRange)
        },
    }
}

/// What a fresh model is: set to build its field from billow noise, with a
/// regeneration due, and until then the curve field on the grid that the
/// viewport and the configuration give; no particles, and the background
/// due for a redraw.
pub open spec fn initial_view(
    config: Config,
    window_rect: SimpleRect,
    trig: Seq<Point2>,
    luts: LutManager,
    current_lut: Seq<char>,
    lut: LutData,
) -> ModelView {
    let layout = GridLayout {
        origin: Point2 {
            x: (window_rect.left + config.vector_spacing) as i64,
            y: (window_rect.bottom + config.vector_spacing) as i64,
        },
        spacing: config.vector_spacing,
        width: config.grid_width,
        height: config.grid_height,
    };
    ModelView {
        config,
        window_rect,
        background: Background::Vectors,
        redraw_background: RedrawBackground::Pending,
        builder: FlowVectorFieldBuilder::Billow,
        layout,
        flow_vectors: right_hand_curve_field(layout, config.vector_magnitude),
        flow_particles: Seq::empty(),
        luts,
        current_lut,
        lut,
        noise_offset: Point2 { x: 0, y: 0 },
        particle_shape: ParticleShape::Circle,
        trig,
        mouse_xy: Point2 { x: 0, y: 0 },
        draw_particle_mode: false,
        show_ui: true,
        regeneration_due: true,
    }
}

/// How the outcome `r` of making a model relates to what it was made from.
/// A faulty configuration or viewport is refused with its fault, and so is
/// a registry without tables. Otherwise the first registered lookup table,
/// in the order of names, becomes the current one.
pub open spec fn creation(
    r: Result<Model, ModelError>,
    config: Config,
    window_rect: SimpleRect,
    trig: Seq<Point2>,
    luts: LutManager,
) -> bool {
    match setup_fault(config, window_rect) {
        Some(e) => r matches Err(f) && f == ModelError::Config(e),
        None => if luts.names().len() == 0 {
            r matches Err(f) && f == ModelError::NoLut
        } else {
            exists|first: Seq<char>| #[trigger]
                luts.is_first(first) && (match luts.lookup(first) {
                    Some(bytes) => {
                        &&& r is Ok
                        &&& r.unwrap().wf()
                        &&& r.unwrap()@.lut.holds(bytes)
                        &&& r.unwrap()@ == initial_view(
                            config,
                            window_rect,
                            trig,
                            luts,
                            first,
                            r.unwrap()@.lut,
                        )
                    },
                    None => false,
                })
        },
    }
}

impl Model {
    /// The invariant of a model, which every function here keeps.
    pub open spec fn wf(&self) -> bool {
        self@.wf()
    }

    /// Makes a model from a configuration and a viewport. The model is set
    /// to build its field from billow noise, and a regeneration is due:
    /// until the host has sampled the noise for it, the model holds the
    /// curve field. The first registered lookup table, in the order of
    /// names, is the current one; a registry without tables is refused.
    pub fn with_config(
        config: Config,
        window_rect: SimpleRect,
        trig: TrigTable,
        lut_manager: LutManager,
        rng: StdRng,
    ) -> (r: Result<Model, ModelError>)
        requires
            lut_manager.wf(),
        ensures
            creation(r, config, window_rect, trig@, lut_manager),
            r matches Ok(m) ==> m.wf(),
    {
        match config.validate() {
            Err(e) => {
                return Err(ModelError::Config(e));
            },
            Ok(_) => {},
        }
        if !window_rect.is_wf() {
            return Err(ModelError::Config(ConfigError::OutOfRange));
        }
        let current_lut: String = match lut_manager.first_lut() {
            Some(name) => name,
            None => {
                return Err(ModelError::NoLut);
            },
        };
        let lut: LutData = lut_manager.load_lut(current_lut.as_str()).unwrap();
        let layout = GridLayout {
            origin: Point2 {
                x: window_rect.left + config.vector_spacing,
                y: window_rect.bottom + config.vector_spacing,
            },
            spacing: config.vector_spacing,
            width: config.grid_width,
            height: config.grid_height,
        };
        let flow_vectors: Vec<FlowVector> = right_hand_curve_vectors(
            &layout,
            config.vector_magnitude,
        ).unwrap();
        proof {
            use_type_invariant(&trig);
            trig.lemma_valid();
        }
        let model = Model {
            config,
            window_rect,
            background: Background::Vectors,
            redraw_background: RedrawBackground::Pending,
            flow_vector_field_builder_type: FlowVectorFieldBuilder::Billow,
            layout,
            flow_vectors,
            flow_particles: Vec::new(),
            lut_manager,
            current_lut,
            lut,
            noise_offset: Point2 { x: 0, y: 0 },
            particle_shape: ParticleShape::Circle,
            rng,
            trig,
            mouse_xy: Point2 { x: 0, y: 0 },
            draw_particle_mode: false,
            show_ui: true,
            regeneration_due: true,
        };
        assert(model@.flow_particles =~= Seq::<FlowParticle>::empty());
        Ok(model)
    }

    /// The tunables.
    pub fn config(&self) -> (c: Config)
        ensures
            c == self@.config,
    {
        self.config
    }

    /// The viewport.
    pub fn window_rect(&self) -> (r: SimpleRect)
        ensures
            r == self@.window_rect,
    {
        self.window_rect
    }

    /// The field vectors, in storage order.
    pub fn flow_vectors(&self) -> (v: &Vec<FlowVector>)
        ensures
            v@ == self@.flow_vectors,
    {
        &self.flow_vectors
    }

    /// The live particles, oldest spawn first.
    pub fn flow_particles(&self) -> (v: &Vec<FlowParticle>)
        ensures
            v@ == self@.flow_particles,
    {
        &self.flow_particles
    }

    /// The layout that the current vectors were built on.
    pub fn layout(&self) -> (l: GridLayout)
        ensures
            l == self@.layout,
    {
        self.layout
    }

    /// The table of unit directions.
    pub fn trig(&self) -> (t: &TrigTable)
        ensures
            t@ == self@.trig,
    {
        &self.trig
    }

    /// Where a grid built now would start: the lower left corner of the
    /// viewport moved inward by one spacing.
    pub fn get_origin(&self) -> (o: (i64, i64))
        requires
            self.wf(),
        ensures
            o.0 == self@.window_rect.left + self@.config.vector_spacing,
            o.1 == self@.window_rect.bottom + self@.config.vector_spacing,
            o.0 == self@.origin().x,
            o.1 == self@.origin().y,
    {
        let origin_x: i64 = self.window_rect.left + self.config.vector_spacing;
        let origin_y: i64 = self.window_rect.bottom + self.config.vector_spacing;
        (origin_x, origin_y)
    }

    /// The particle that a spawn at `xy` with the given draws makes.
    pub fn particle_from_draws(&self, xy: Point2, draws: SpawnDraws) -> (p: FlowParticle)
        requires
            self.wf(),
        ensures
            p == self@.spawned(xy, draws),
    {
        let age: i64 = map_range(draws.age, 0, self.config.particle_lifetime);
        let scaled_index: i128 = (draws.color as i128 * 255) / (UNIT as i128);
        let entry: usize = if draws.color <= 0 {
            0
        } else if scaled_index > 255 {
            255
        } else {
            scaled_index as usize
        };
        assert(entry == color_index(draws.color as int)) by {
            if draws.color <= 0 {
                assert(draws.color * 255 / (UNIT as int) <= 0) by (nonlinear_arith)
                    requires
                        draws.color <= 0,
                        UNIT > 0,
                ;
            }
        }
        let color: Color = Color::from_rgb(
            self.lut.red[entry],
            self.lut.green[entry],
            self.lut.blue[entry],
        );
        let weight: i64 = map_range(
            draws.weight,
            self.config.particle_min_weight,
            self.config.particle_max_weight,
        );
        FlowParticle::from_options(
            FlowParticleBuilderFnOptions {
                age,
                aging_rate: DEFAULT_AGING_RATE,
                color,
                step_length: draws.step,
                weight,
                xy,
                shape: self.particle_shape,
            },
        )
    }

    /// Spawns a particle at `xy` and returns its place among the particles.
    /// Age, color, weight and step length are drawn at random; nothing else
    /// of the model changes.
    pub fn spawn_new_particle(&mut self, xy: Point2) -> (index: usize)
        requires
            old(self).wf(),
        ensures
            final(self).wf(),
            index == old(self)@.flow_particles.len(),
            exists|d: SpawnDraws|
                d.valid() && final(self)@ == (ModelView {
                    flow_particles: old(self)@.flow_particles.push(
                        #[trigger] old(self)@.spawned(xy, d),
                    ),
                    ..old(self)@
                }),
    {
        let age: i64 = random_below(&mut self.rng, UNIT as u64) as i64;
        let color: i64 = random_below(&mut self.rng, UNIT as u64) as i64;
        let weight: i64 = random_below(&mut self.rng, UNIT as u64) as i64;
        let step: i64 = random_below(&mut self.rng, UNIT as u64) as i64;
        let draws = SpawnDraws { age, color, weight, step };
        let particle: FlowParticle = self.particle_from_draws(xy, draws);
        let index: usize = self.flow_particles.len();
        self.flow_particles.push(particle);
        assert(draws.valid());
        index
    }

    /// The point that lies the share `u` of the way across the viewport and
    /// the share `v` of the way up.
    pub fn point_from_draws(&self, u: i64, v: i64) -> (p: Point2)
        requires
            self.wf(),
        ensures
            p == self@.point_at(u, v),
            0 <= u < UNIT && 0 <= v < UNIT ==> self@.window_rect.spec_contains(p),
    {
        proof {
            if 0 <= u < UNIT && 0 <= v < UNIT {
                lemma_mapped_within(
                    u as int,
                    self.window_rect.left as int,
                    self.window_rect.right as int,
                );
                lemma_mapped_within(
                    v as int,
                    self.window_rect.bottom as int,
                    self.window_rect.top as int,
                );
            }
        }
        Point2 {
            x: map_range(u, self.window_rect.left, self.window_rect.right),
            y: map_range(v, self.window_rect.bottom, self.window_rect.top),
        }
    }

    /// A point of the viewport drawn at random.
    pub fn get_random_xy(&mut self) -> (p: Point2)
        requires
            old(self).wf(),
        ensures
            final(self).wf(),
            final(self)@ == old(self)@,
            old(self)@.window_rect.spec_contains(p),
            exists|u: i64, v: i64|
                0 <= u < UNIT && 0 <= v < UNIT && p == #[trigger] old(self)@.point_at(u, v),
    {
        let u: i64 = random_below(&mut self.rng, UNIT as u64) as i64;
        let v: i64 = random_below(&mut self.rng, UNIT as u64) as i64;
        self.point_from_draws(u, v)
    }

    /// The layout of a grid built now.
    pub fn fresh_layout(&self) -> (l: GridLayout)
        requires
            self.wf(),
        ensures
            l == self@.fresh_layout(),
            l.wf(),
    {
        let (origin_x, origin_y) = self.get_origin();
        GridLayout {
            origin: Point2 { x: origin_x, y: origin_y },
            spacing: self.config.vector_spacing,
            width: self.config.grid_width,
            height: self.config.grid_height,
        }
    }

    /// Draws a new noise offset, each coordinate at least zero and less
    /// than a thousand.
    pub fn reroll_noise_offset(&mut self)
        requires
            old(self).wf(),
        ensures
            final(self).wf(),
            final(self)@ == (ModelView {
                noise_offset: final(self)@.noise_offset,
                ..old(self)@
            }),
            0 <= final(self)@.noise_offset.x < NOISE_OFFSET_LIMIT,
            0 <= final(self)@.noise_offset.y < NOISE_OFFSET_LIMIT,
    {
        let x: i64 = random_below(&mut self.rng, NOISE_OFFSET_LIMIT as u64) as i64;
        let y: i64 = random_below(&mut self.rng, NOISE_OFFSET_LIMIT as u64) as i64;
        let _set: Result<(), ConfigError> = self.set_noise_offset(Point2 { x, y });
    }

    /// Puts the noise offset at `offset`, as a drawn or a kept one. Each
    /// coordinate has to be at least zero and less than a thousand; any
    /// other offset is refused and changes nothing. Nothing but the offset
    /// changes, and the field stays as it is until it is built anew.
    pub fn set_noise_offset(&mut self, offset: Point2) -> (r: Result<(), ConfigError>)
        requires
            old(self).wf(),
        ensures
            final(self).wf(),
            if 0 <= offset.x < NOISE_OFFSET_LIMIT && 0 <= offset.y < NOISE_OFFSET_LIMIT {
                r is Ok && final(self)@ == (ModelView { noise_offset: offset, ..old(self)@ })
            } else {
                r == Err::<(), ConfigError>(ConfigError::OutOfRange) && final(self)@ == old(self)@
            },
    {
        if 0 <= offset.x && offset.x < NOISE_OFFSET_LIMIT && 0 <= offset.y && offset.y
            < NOISE_OFFSET_LIMIT {
            self.noise_offset = offset;
            Ok(())
        } else {
            Err(ConfigError::OutOfRange)
        }
    }

    /// The points in noise space at which the host is to sample the kernel,
    /// one for each cell of a grid built now, in storage order.
    pub fn noise_sample_points(&self) -> (r: Vec<Point2>)
        requires
            self.wf(),
        ensures
            r@ == self@.sample_points(),
    {
        let layout: GridLayout = self.fresh_layout();
        let n: usize = layout.len();
        let mut out: Vec<Point2> = Vec::new();
        let mut i: usize = 0;
        while i < n
            invariant
                self.wf(),
                layout == self@.fresh_layout(),
                layout.wf(),
                n == layout.cells(),
                i <= n,
                out@.len() == i,
                forall|j: int| 0 <= j < i ==> out@[j] == self@.sample_points()[j],
            decreases n - i,
        {
            proof {
                lemma_index_covers(layout, i as int);
            }
            let row: i128 = (i % layout.width) as i128;
            let col: i128 = (i / layout.width) as i128;
            let scale: i128 = self.config.noise_scale as i128;
            assert(-0x4000_0000_0000_0000_0000 <= row * scale <= 0x4000_0000_0000_0000_0000
                && -0x4000_0000_0000_0000_0000 <= col * scale <= 0x4000_0000_0000_0000_0000)
                by (nonlinear_arith)
                requires
                    0 <= row < 4096,
                    0 <= col < 4096,
                    -0x8000_0000_0000_0000 <= scale < 0x8000_0000_0000_0000,
            ;
            let p = Point2 {
                x: saturate(col * scale + self.noise_offset.x as i128),
                y: saturate(row * scale + self.noise_offset.y as i128),
            };
            out.push(p);
            i = i + 1;
        }
        assert(out@ =~= self@.sample_points());
        out
    }

    /// Builds the field anew, in the way the model is set to, on the grid
    /// that the viewport and the configuration give now. The whole field is
    /// replaced or, on failure, nothing is. A way that uses noise needs one
    /// sample for each cell, taken at the model's sample points.
    pub fn regen_flow_vectors(&mut self, samples: &Vec<i64>) -> (r: Result<(), FieldError>)
        requires
            old(self).wf(),
        ensures
            final(self).wf(),
            r is Err <==> old(self)@.builder.spec_uses_noise() && samples@.len() != old(self)@.fresh_layout().cells(),
            r is Err ==> r == Err::<(), FieldError>(FieldError::SampleCount) && final(self)@
                == old(self)@,
            r is Ok ==> final(self)@ == old(self)@.regenerated(samples@),
    {
        let layout: GridLayout = self.fresh_layout();
        match self.flow_vector_field_builder_type.build(
            &layout,
            self.config.vector_magnitude,
            samples,
        ) {
            Err(e) => Err(e),
            Ok(vectors) => {
                proof {
                    lemma_cells_bounded(layout);
                }
                self.layout = layout;
                self.flow_vectors = vectors;
                self.background = Background::Vectors;
                self.redraw_background = RedrawBackground::Pending;
                self.regeneration_due = false;
                Ok(())
            },
        }
    }

    /// Replaces the tunables by `config`, or refuses a faulty one and
    /// changes nothing. The field and the particles stay as they are; a
    /// change to what the field is built from makes its regeneration due.
    pub fn apply_config(&mut self, config: Config) -> (r: Result<(), ConfigError>)
        requires
            old(self).wf(),
        ensures
            final(self).wf(),
            match config.fault() {
                Some(e) => r == Err::<(), ConfigError>(e) && final(self)@ == old(self)@,
                None => r is Ok && final(self)@ == (ModelView {
                    config,
                    regeneration_due: old(self)@.regeneration_due || !config.same_field(
                        old(self)@.config,
                    ),
                    ..old(self)@
                }),
            },
    {
        match config.validate() {
            Err(e) => Err(e),
            Ok(_) => {
                if !config.builds_same_field(&self.config) {
                    self.regeneration_due = true;
                }
                self.config = config;
                Ok(())
            },
        }
    }

    /// Starts a generation of the field: draws the noise offset for it and
    /// names the points in noise space at which the host is to sample the
    /// kernel, one for each cell in storage order.
    pub fn begin_field_generation(&mut self) -> (r: Vec<Point2>)
        requires
            old(self).wf(),
        ensures
            final(self).wf(),
            final(self)@ == (ModelView {
                noise_offset: final(self)@.noise_offset,
                ..old(self)@
            }),
            0 <= final(self)@.noise_offset.x < NOISE_OFFSET_LIMIT,
            0 <= final(self)@.noise_offset.y < NOISE_OFFSET_LIMIT,
            r@ == final(self)@.sample_points(),
    {
        self.reroll_noise_offset();
        self.noise_sample_points()
    }

    /// Replaces the viewport by the rectangle of the given size centred on
    /// the origin, or refuses one beyond the supported range and changes
    /// nothing.
    pub fn set_window_size(&mut self, w: i64, h: i64) -> (r: Result<(), ConfigError>)
        requires
            old(self).wf(),
        ensures
            final(self).wf(),
            if SimpleRect::of_size(w, h).wf() {
                r is Ok && final(self)@ == (ModelView {
                    window_rect: SimpleRect::of_size(w, h),
                    ..old(self)@
                })
            } else {
                r == Err::<(), ConfigError>(ConfigError::OutOfRange) && final(self)@ == old(self)@
            },
    {
        let rect: SimpleRect = SimpleRect::from_w_h(w, h);
        if rect.is_wf() {
            self.window_rect = rect;
            Ok(())
        } else {
            Err(ConfigError::OutOfRange)
        }
    }

    /// Adds the given particle and returns its place among the particles.
    pub fn insert_particle(&mut self, particle: FlowParticle) -> (index: usize)
        requires
            old(self).wf(),
        ensures
            final(self).wf(),
            index == old(self)@.flow_particles.len(),
            final(self)@ == (ModelView {
                flow_particles: old(self)@.flow_particles.push(particle),
                ..old(self)@
            }),
    {
        let index: usize = self.flow_particles.len();
        self.flow_particles.push(particle);
        index
    }

    /// Removes every particle.
    pub fn clear_particles(&mut self)
        requires
            old(self).wf(),
        ensures
            final(self).wf(),
            final(self)@ == (ModelView {
                flow_particles: Seq::<FlowParticle>::empty(),
                ..old(self)@
            }),
    {
        self.flow_particles.clear();
    }

    /// Sets the seed for the noise kernel. A new seed makes a regeneration of
    /// the field due.
    pub fn set_noise_seed(&mut self, value: u32)
        requires
            old(self).wf(),
        ensures
            final(self).wf(),
            final(self)@ == (ModelView {
                config: Config { noise_seed: value, ..old(self)@.config },
                regeneration_due: old(self)@.regeneration_due || value != old(self)@.config.noise_seed,
                ..old(self)@
            }),
    {
        if value != self.config.noise_seed {
            self.regeneration_due = true;
        }
        self.config.noise_seed = value;
    }

    /// Sets the noise scale. A new scale makes a regeneration of the field
    /// due.
    pub fn set_noise_scale(&mut self, value: i64)
        requires
            old(self).wf(),
        ensures
            final(self).wf(),
            final(self)@ == (ModelView {
                config: Config { noise_scale: value, ..old(self)@.config },
                regeneration_due: old(self)@.regeneration_due || value != old(self)@.config.noise_scale,
                ..old(self)@
            }),
    {
        if value != self.config.noise_scale {
            self.regeneration_due = true;
        }
        self.config.noise_scale = value;
    }

    /// Sets the age at which particles retire.
    pub fn set_particle_lifetime(&mut self, value: i64)
        requires
            old(self).wf(),
        ensures
            final(self).wf(),
            final(self)@ == (ModelView {
                config: Config { particle_lifetime: value, ..old(self)@.config },
                ..old(self)@
            }),
    {
        self.config.particle_lifetime = value;
    }

    /// Sets the smallest weight of particles spawned from now on.
    pub fn set_particle_min_weight(&mut self, value: i64)
        requires
            old(self).wf(),
        ensures
            final(self).wf(),
            final(self)@ == (ModelView {
                config: Config { particle_min_weight: value, ..old(self)@.config },
                ..old(self)@
            }),
    {
        self.config.particle_min_weight = value;
    }

    /// Sets the largest weight of particles spawned from now on.
    pub fn set_particle_max_weight(&mut self, value: i64)
        requires
            old(self).wf(),
        ensures
            final(self).wf(),
            final(self)@ == (ModelView {
                config: Config { particle_max_weight: value, ..old(self)@.config },
                ..old(self)@
            }),
    {
        self.config.particle_max_weight = value;
    }

    /// Sets the base step per tick.
    pub fn set_particle_step_length(&mut self, value: i64)
        requires
            old(self).wf(),
        ensures
            final(self).wf(),
            final(self)@ == (ModelView {
                config: Config { particle_step_length: value, ..old(self)@.config },
                ..old(self)@
            }),
    {
        self.config.particle_step_length = value;
    }

    /// Turns auto-spawn on or off.
    pub fn set_automatically_spawn_particles(&mut self, value: bool)
        requires
            old(self).wf(),
        ensures
            final(self).wf(),
            final(self)@ == (ModelView {
                config: Config { automatically_spawn_particles: value, ..old(self)@.config },
                ..old(self)@
            }),
    {
        self.config.automatically_spawn_particles = value;
    }

    /// Sets the population below which auto-spawn adds a particle.
    pub fn set_particle_auto_spawn_limit(&mut self, value: usize)
        requires
            old(self).wf(),
        ensures
            final(self).wf(),
            final(self)@ == (ModelView {
                config: Config { particle_auto_spawn_limit: value, ..old(self)@.config },
                ..old(self)@
            }),
    {
        self.config.particle_auto_spawn_limit = value;
    }

    /// Sets the time a particle may spend outside the viewport.
    pub fn set_outside_bounds_timeout(&mut self, value: i64)
        requires
            old(self).wf(),
        ensures
            final(self).wf(),
            final(self)@ == (ModelView {
                config: Config { outside_bounds_timeout: value, ..old(self)@.config },
                ..old(self)@
            }),
    {
        self.config.outside_bounds_timeout = value;
    }

    /// The way the field is built.
    pub fn flow_vector_field_builder_type(&self) -> (r: FlowVectorFieldBuilder)
        ensures
            r == self@.builder,
    {
        self.flow_vector_field_builder_type
    }

    /// Sets the way the field is built. Another way makes a regeneration of
    /// the field due.
    pub fn set_flow_vector_field_builder_type(&mut self, value: FlowVectorFieldBuilder)
        requires
            old(self).wf(),
        ensures
            final(self).wf(),
            final(self)@ == (ModelView {
                builder: value,
                regeneration_due: old(self)@.regeneration_due || value != old(self)@.builder,
                ..old(self)@
            }),
    {
        if value != self.flow_vector_field_builder_type {
            self.regeneration_due = true;
        }
        self.flow_vector_field_builder_type = value;
    }

    /// Whether what the field is built from has changed since it was
    /// built, so that it is due to be built anew.
    pub fn regeneration_due(&self) -> (r: bool)
        ensures
            r == self@.regeneration_due,
    {
        self.regeneration_due
    }

    /// The outline of particles spawned now.
    pub fn particle_shape(&self) -> (r: ParticleShape)
        ensures
            r == self@.particle_shape,
    {
        self.particle_shape
    }

    /// Sets the outline of particles spawned from now on.
    pub fn set_particle_shape(&mut self, value: ParticleShape)
        requires
            old(self).wf(),
        ensures
            final(self).wf(),
            final(self)@ == (ModelView { particle_shape: value, ..old(self)@ }),
    {
        self.particle_shape = value;
    }

    /// Whether the controls are shown.
    pub fn show_ui(&self) -> (r: bool)
        ensures
            r == self@.show_ui,
    {
        self.show_ui
    }

    /// Shows or hides the controls.
    pub fn set_show_ui(&mut self, value: bool)
        requires
            old(self).wf(),
        ensures
            final(self).wf(),
            final(self)@ == (ModelView { show_ui: value, ..old(self)@ }),
    {
        self.show_ui = value;
    }

    /// Whether particles are to be spawned at the pointer.
    pub fn draw_particle_mode(&self) -> (r: bool)
        ensures
            r == self@.draw_particle_mode,
    {
        self.draw_particle_mode
    }

    /// Turns spawning at the pointer on or off.
    pub fn set_draw_particle_mode(&mut self, value: bool)
        requires
            old(self).wf(),
        ensures
            final(self).wf(),
            final(self)@ == (ModelView { draw_particle_mode: value, ..old(self)@ }),
    {
        self.draw_particle_mode = value;
    }

    /// Where the pointer was last seen.
    pub fn mouse_xy(&self) -> (r: Point2)
        ensures
            r == self@.mouse_xy,
    {
        self.mouse_xy
    }

    /// Records where the pointer is.
    pub fn set_mouse_xy(&mut self, value: Point2)
        requires
            old(self).wf(),
        ensures
            final(self).wf(),
            final(self)@ == (ModelView { mouse_xy: value, ..old(self)@ }),
    {
        self.mouse_xy = value;
    }

    /// What is painted behind the particles.
    pub fn background(&self) -> (r: Background)
        ensures
            r == self@.background,
    {
        self.background
    }

    /// Chooses what is painted behind the particles and asks for a redraw.
    pub fn set_background(&mut self, value: Background)
        requires
            old(self).wf(),
        ensures
            final(self).wf(),
            final(self)@ == (ModelView {
                background: value,
                redraw_background: RedrawBackground::Pending,
                ..old(self)@
            }),
    {
        self.background = value;
        self.redraw_background = RedrawBackground::Pending;
    }

    /// How far a requested redraw of the background has come.
    pub fn redraw_background(&self) -> (r: RedrawBackground)
        ensures
            r == self@.redraw_background,
    {
        self.redraw_background
    }

    /// Asks for a redraw of the background.
    pub fn request_redraw(&mut self)
        requires
            old(self).wf(),
        ensures
            final(self).wf(),
            final(self)@ == (ModelView {
                redraw_background: RedrawBackground::Pending,
                ..old(self)@
            }),
    {
        self.redraw_background = RedrawBackground::Pending;
    }

    /// The noise offset.
    pub fn noise_offset(&self) -> (r: Point2)
        ensures
            r == self@.noise_offset,
    {
        self.noise_offset
    }

    /// The registry of lookup tables.
    pub fn lut_manager(&self) -> (r: &LutManager)
        ensures
            *r == self@.luts,
    {
        &self.lut_manager
    }

    /// The name of the current lookup table.
    pub fn current_lut(&self) -> (r: &String)
        ensures
            r@ == self@.current_lut,
    {
        &self.current_lut
    }

    /// The channels of the current lookup table.
    pub fn lut(&self) -> (r: &LutData)
        ensures
            *r == self@.lut,
    {
        &self.lut
    }

    /// Makes the table registered under `name` the current one, from which
    /// particles spawned from now on take their color. A name without a
    /// table is refused with an error that carries it, and changes nothing.
    pub fn set_current_lut(&mut self, name: &str) -> (r: Result<(), LutError>)
        requires
            old(self).wf(),
        ensures
            final(self).wf(),
            match old(self)@.luts.lookup(name@) {
                None => (r matches Err(LutError::NotFound(missing)) && missing@ == name@)
                    && final(self)@ == old(self)@,
                Some(bytes) => r is Ok && final(self)@.lut.holds(bytes) && final(self)@ == (
                ModelView { current_lut: name@, lut: final(self)@.lut, ..old(self)@ }),
            },
    {
        match self.lut_manager.load_lut(name) {
            Err(e) => Err(e),
            Ok(lut) => {
                self.current_lut = name.to_owned();
                self.lut = lut;
                Ok(())
            },
        }
    }

    /// Spawns a particle at the pointer while spawning there is on, and
    /// says where it was put.
    pub fn spawn_at_pointer(&mut self) -> (r: Option<usize>)
        requires
            old(self).wf(),
        ensures
            final(self).wf(),
            !old(self)@.draw_particle_mode ==> r is None && final(self)@ == old(self)@,
            old(self)@.draw_particle_mode ==> r == Some(old(self)@.flow_particles.len() as usize)
                && exists|d: SpawnDraws|
                d.valid() && final(self)@ == (ModelView {
                    flow_particles: old(self)@.flow_particles.push(
                        #[trigger] old(self)@.spawned(old(self)@.mouse_xy, d),
                    ),
                    ..old(self)@
                }),
    {
        if self.draw_particle_mode {
            let xy: Point2 = self.mouse_xy;
            Some(self.spawn_new_particle(xy))
        } else {
            None
        }
    }

    /// Spawns a particle at a point of the viewport drawn at random and
    /// returns its place among the particles.
    pub fn spawn_random_particle(&mut self) -> (index: usize)
        requires
            old(self).wf(),
        ensures
            final(self).wf(),
            index == old(self)@.flow_particles.len(),
            exists|u: i64, v: i64, d: SpawnDraws|
                {
                    &&& 0 <= u < UNIT
                    &&& 0 <= v < UNIT
                    &&& d.valid()
                    &&& final(self)@ == (ModelView {
                        flow_particles: old(self)@.flow_particles.push(
                            #[trigger] old(self)@.spawned(old(self)@.point_at(u, v), d),
                        ),
                        ..old(self)@
                    })
                },
    {
        let ghost before = self@;
        let xy: Point2 = self.get_random_xy();
        let index: usize = self.spawn_new_particle(xy);
        proof {
            let (u, v) = choose|u: i64, v: i64|
                0 <= u < UNIT && 0 <= v < UNIT && xy == #[trigger] before.point_at(u, v);
            let d = choose|d: SpawnDraws|
                d.valid() && self@ == (ModelView {
                    flow_particles: before.flow_particles.push(#[trigger] before.spawned(xy, d)),
                    ..before
                });
            assert(before.spawned(xy, d) == before.spawned(before.point_at(u, v), d));
        }
        index
    }

    /// Makes the model that a viewport of `window_size` starts with: the
    /// viewport is centred on the origin, the grid holds as many whole cells
    /// as fit, and the noise seed is drawn at random.
    pub fn new(window_size: Point2, trig: TrigTable, lut_manager: LutManager, rng: StdRng) -> (r:
        Result<Model, ModelError>)
        requires
            lut_manager.wf(),
        ensures
            exists|seed: u32|
                seed < NOISE_SEED_LIMIT && #[trigger] creation(
                    r,
                    Config::spec_for_window(window_size, seed),
                    SimpleRect::of_size(window_size.x, window_size.y),
                    trig@,
                    lut_manager,
                ),
            r matches Ok(m) ==> m.wf(),
    {
        let mut rng = rng;
        let seed: u32 = random_below(&mut rng, NOISE_SEED_LIMIT as u64) as u32;
        let config: Config = Config::for_window(window_size, seed);
        let window_rect: SimpleRect = SimpleRect::from_w_h(window_size.x, window_size.y);
        Model::with_config(config, window_rect, trig, lut_manager, rng)
    }
}

/// A spawned particle lies within the configured ranges: its own step
/// length is at least zero and less than one, its age is at least zero and
/// less than a positive lifetime, and its weight is at least the smallest
/// and, where the two differ, less than the largest.
pub proof fn lemma_spawned_within_ranges(m: ModelView, xy: Point2, d: SpawnDraws)
    requires
        d.valid(),
    ensures
        m.spawned(xy, d).xy == xy,
        m.spawned(xy, d).previous_xy == xy,
        m.spawned(xy, d).time_outside_bounds == 0,
        m.spawned(xy, d).shape == m.particle_shape,
        0 <= m.spawned(xy, d).step_length < UNIT,
        0 < m.config.particle_lifetime ==> 0 <= m.spawned(xy, d).age
            < m.config.particle_lifetime,
        m.config.particle_min_weight <= m.config.particle_max_weight
            ==> m.config.particle_min_weight <= m.spawned(xy, d).weight
            <= m.config.particle_max_weight,
        m.config.particle_min_weight < m.config.particle_max_weight ==> m.spawned(xy, d).weight
            < m.config.particle_max_weight,
{
    if 0 < m.config.particle_lifetime {
        lemma_mapped_within(d.age as int, 0, m.config.particle_lifetime as int);
    }
    if m.config.particle_min_weight <= m.config.particle_max_weight {
        lemma_mapped_within(
            d.weight as int,
            m.config.particle_min_weight as int,
            m.config.particle_max_weight as int,
        );
    }
}

/// In a well-formed model the lookup of a heading never falls back to zero
/// for want of a vector: the nearest cell always holds one. A point at or
/// beyond the last row or column is served by that row or column, a point
/// at or before the first by the first.
pub proof fn lemma_lookup_never_falls_back(m: ModelView, xy: Point2)
    requires
        m.wf(),
    ensures
        0 <= m.layout.nearest_index(xy) < m.flow_vectors.len(),
        m.heading_at(xy) == m.flow_vectors[m.layout.nearest_index(xy)].heading,
        m.layout.nearest_index(xy) == m.layout.nearest_row(xy.x as int) + m.layout.nearest_col(
            xy.y as int,
        ) * m.layout.width,
        xy.x <= m.layout.origin.x ==> m.layout.nearest_row(xy.x as int) == 0,
        xy.y <= m.layout.origin.y ==> m.layout.nearest_col(xy.y as int) == 0,
        xy.x >= m.layout.origin.x + (m.layout.width - 1) * m.layout.spacing
            ==> m.layout.nearest_row(xy.x as int) == m.layout.width - 1,
        xy.y >= m.layout.origin.y + (m.layout.height - 1) * m.layout.spacing
            ==> m.layout.nearest_col(xy.y as int) == m.layout.height - 1,
{
    lemma_nearest_clamps(m.layout, xy);
}

/// The heading of the field vector nearest to `xy`. A point beyond the grid
/// is served by the vector at the edge it lies beyond.
pub fn nearest_angle_in_grid(xy: Point2, model: &Model) -> (heading: i64)
    requires
        model.wf(),
    ensures
        heading == model@.heading_at(xy),
        0 <= model@.layout.nearest_index(xy) < model@.flow_vectors.len(),
        heading == model@.flow_vectors[model@.layout.nearest_index(xy)].heading,
{
    let fv_index: usize = model.layout.nearest(xy);
    if fv_index < model.flow_vectors.len() {
        model.flow_vectors[fv_index].heading()
    } else {
        0
    }
}

} // verus!
