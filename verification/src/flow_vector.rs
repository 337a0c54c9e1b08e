//! Field vectors and the construction of vector fields.
//!
//! A field is one vector per grid cell. Its headings come either from a
//! fixed curve that sweeps half a turn over the columns, or from noise
//! samples that the host evaluates at the points the library names.

use crate::fixed::{clamp64, clamp_between, scale, scaled, Point2, FULL_TURN, HALF_TURN, UNIT};
use crate::grid::{lemma_index_covers, lemma_index_in_range, GridLayout, MAX_COORD};
use crate::model::config::ConfigError;
use crate::model::Model;
use crate::trig::{slot_of, TrigTable};
use vstd::prelude::*;

verus! {

/// The heading equal to `h` up to whole turns that lies in (-180, 180]
/// degrees.
pub open spec fn canonical(h: int) -> int {
    HALF_TURN - ((HALF_TURN - h) % (FULL_TURN as int))
}

/// A canonical heading lies in (-180, 180] degrees and differs from the
/// given one by whole turns; a heading in that range is its own canonical
/// form.
pub proof fn lemma_canonical(h: int)
    ensures
        -HALF_TURN < canonical(h) <= HALF_TURN,
        (canonical(h) - h) % (FULL_TURN as int) == 0,
        -HALF_TURN < h <= HALF_TURN ==> canonical(h) == h,
{
    let f = FULL_TURN as int;
    let d = HALF_TURN - h;
    vstd::arithmetic::div_mod::lemma_fundamental_div_mod(d, f);
    assert(canonical(h) - h == f * (d / f));
    vstd::arithmetic::div_mod::lemma_mod_multiples_basic(d / f, f);
    assert(f * (d / f) == (d / f) * f) by (nonlinear_arith);
    if -HALF_TURN < h <= HALF_TURN {
        vstd::arithmetic::div_mod::lemma_small_mod(d as nat, f as nat);
    }
}

/// Reduces a heading to its canonical form.
pub fn canonical_heading(h: i64) -> (r: i64)
    ensures
        r == canonical(h as int),
        -HALF_TURN < r <= HALF_TURN,
{
    reduce(h as i128)
}

fn reduce(h: i128) -> (r: i64)
    requires
        -0x1_0000_0000_0000_0000 <= h <= 0x1_0000_0000_0000_0000,
    ensures
        r == canonical(h as int),
        -HALF_TURN < r <= HALF_TURN,
{
    proof {
        lemma_canonical(h as int);
    }
    let m: i128 = (HALF_TURN as i128 - h) % (FULL_TURN as i128);
    let e: i128 = if m < 0 {
        m + FULL_TURN as i128
    } else {
        m
    };
    assert(e as int == (HALF_TURN - h) % (FULL_TURN as int));
    (HALF_TURN as i128 - e) as i64
}

/// One sample of the direction field: where it sits, where it points and
/// how long it is.
#[derive(Clone, Copy, Debug, PartialEq, Eq, Structural)]
pub struct FlowVector {
    /// The position of the grid cell.
    pub xy: Point2,
    /// The heading, kept canonical.
    pub heading: i64,
    /// The length, greater than zero.
    pub magnitude: i64,
}

impl FlowVector {
    /// The vector has a positive magnitude and a canonical heading.
    pub open spec fn wf(&self) -> bool {
        &&& 0 < self.magnitude
        &&& -HALF_TURN < self.heading <= HALF_TURN
    }

    /// The direction of the vector under `table`: its magnitude along the
    /// table's unit direction for its heading.
    pub open spec fn spec_direction(&self, table: Seq<Point2>) -> Point2 {
        let u = table[slot_of(self.heading as int, table.len() as int)];
        Point2 {
            x: clamp64(scaled(self.magnitude as int, u.x as int)) as i64,
            y: clamp64(scaled(self.magnitude as int, u.y as int)) as i64,
        }
    }

    /// A vector at `xy` of the given magnitude with heading zero. A
    /// magnitude that is not positive is refused.
    pub fn new(xy: Point2, magnitude: i64) -> (r: Result<FlowVector, ConfigError>)
        ensures
            magnitude > 0 ==> r == Ok::<FlowVector, ConfigError>(
                FlowVector { xy, heading: 0, magnitude },
            ),
            magnitude <= 0 ==> r == Err::<FlowVector, ConfigError>(ConfigError::ZeroMagnitude),
    {
        if magnitude <= 0 {
            Err(ConfigError::ZeroMagnitude)
        } else {
            Ok(FlowVector { xy, heading: 0, magnitude })
        }
    }

    /// Turns the vector by `a`, keeping the heading canonical.
    pub fn rotate(&mut self, a: i64)
        ensures
            final(self).heading == canonical(old(self).heading + a),
            final(self).xy == old(self).xy,
            final(self).magnitude == old(self).magnitude,
            -HALF_TURN < final(self).heading <= HALF_TURN,
    {
        self.heading = reduce(self.heading as i128 + a as i128);
    }

    /// The heading.
    pub fn heading(&self) -> (h: i64)
        ensures
            h == self.heading,
    {
        self.heading
    }

    /// The position.
    pub fn position(&self) -> (p: Point2)
        ensures
            p == self.xy,
    {
        self.xy
    }

    /// The direction: the magnitude along the unit direction that `trig`
    /// holds for the heading.
    pub fn direction(&self, trig: &TrigTable) -> (d: Point2)
        ensures
            d == self.spec_direction(trig@),
    {
        let u: Point2 = trig.unit(self.heading);
        Point2 { x: scale(self.magnitude, u.x), y: scale(self.magnitude, u.y) }
    }
}

/// The heading of the curve field in column `col` of `height` columns: the
/// column's share of half a turn, rounded down to a millionth of a degree.
pub open spec fn curve_heading(col: int, height: int) -> int {
    col * HALF_TURN / height
}

/// A noise sample, nominally between -1 and 1, mapped onto 0 to 1 and
/// limited to that range.
pub open spec fn normalized_sample(sample: int) -> int {
    clamp_between((sample + UNIT) / 2, 0, UNIT as int)
}

/// The heading that a noise sample gives: its normalized value as a share of
/// a full turn, in canonical form.
pub open spec fn noise_heading(sample: int) -> int {
    canonical(normalized_sample(sample) * 360)
}

/// The curve headings of all cells, in storage order.
pub open spec fn curve_headings(layout: GridLayout) -> Seq<i64> {
    Seq::new(
        layout.cells() as nat,
        |i: int| curve_heading(layout.col_of(i), layout.height as int) as i64,
    )
}

/// The headings that `samples` give, one for one.
pub open spec fn noise_headings(samples: Seq<i64>) -> Seq<i64> {
    Seq::new(samples.len(), |i: int| noise_heading(samples[i] as int) as i64)
}

/// The field that puts `headings`, in storage order, onto the cells of
/// `layout`.
pub open spec fn field_of(layout: GridLayout, magnitude: i64, headings: Seq<i64>) -> Seq<
    FlowVector,
> {
    Seq::new(
        headings.len(),
        |i: int|
            FlowVector {
                xy: layout.cell_position(layout.row_of(i), layout.col_of(i)),
                heading: headings[i],
                magnitude,
            },
    )
}

/// `v` holds one well-formed vector of the given magnitude for each cell of
/// `layout`, each at its cell's position.
pub open spec fn is_field_on(v: Seq<FlowVector>, layout: GridLayout, magnitude: i64) -> bool {
    &&& v.len() == layout.cells()
    &&& forall|i: int|
        0 <= i < v.len() ==> {
            &&& (#[trigger] v[i]).wf()
            &&& v[i].magnitude == magnitude
            &&& v[i].xy == layout.cell_position(layout.row_of(i), layout.col_of(i))
        }
}

/// The field whose headings sweep half a turn over the columns.
pub open spec fn right_hand_curve_field(layout: GridLayout, magnitude: i64) -> Seq<FlowVector> {
    field_of(layout, magnitude, curve_headings(layout))
}

/// The field whose headings come from `samples`.
pub open spec fn noise_field(layout: GridLayout, magnitude: i64, samples: Seq<i64>) -> Seq<
    FlowVector,
> {
    field_of(layout, magnitude, noise_headings(samples))
}

/// The curve heading of a column inside the grid is canonical as it stands.
pub proof fn lemma_curve_heading_range(col: int, height: int)
    requires
        0 <= col < height,
    ensures
        0 <= curve_heading(col, height) < HALF_TURN,
        canonical(curve_heading(col, height)) == curve_heading(col, height),
{
    assert(0 <= col * HALF_TURN < height * HALF_TURN) by (nonlinear_arith)
        requires
            0 <= col < height,
    ;
    assert(0 <= (col * HALF_TURN) / height < HALF_TURN) by (nonlinear_arith)
        requires
            0 <= col * HALF_TURN < height * HALF_TURN,
            height > 0,
    ;
    lemma_canonical(curve_heading(col, height));
}

/// In the curve field the heading of the cell in row `row` and column `col`
/// is the column's share of half a turn, `col * 180 / height` degrees, and
/// so the same in every row of that column.
pub proof fn lemma_curve_field_heading(layout: GridLayout, magnitude: i64, row: int, col: int)
    requires
        layout.wf(),
        0 <= row < layout.width,
        0 <= col < layout.height,
    ensures
        0 <= layout.spec_index(row, col) < right_hand_curve_field(layout, magnitude).len(),
        right_hand_curve_field(layout, magnitude)[layout.spec_index(row, col)].heading == col
            * HALF_TURN / (layout.height as int),
        forall|other: int|
            0 <= other < layout.width ==> right_hand_curve_field(
                layout,
                magnitude,
            )[#[trigger] layout.spec_index(other, col)].heading == right_hand_curve_field(
                layout,
                magnitude,
            )[layout.spec_index(row, col)].heading,
{
    lemma_index_in_range(layout, row, col);
    lemma_curve_heading_range(col, layout.height as int);
    assert forall|other: int| 0 <= other < layout.width implies right_hand_curve_field(
        layout,
        magnitude,
    )[#[trigger] layout.spec_index(other, col)].heading == right_hand_curve_field(
        layout,
        magnitude,
    )[layout.spec_index(row, col)].heading by {
        lemma_index_in_range(layout, other, col);
    }
}

/// A field is a function of what it is built from: the same way of
/// building, layout, magnitude and samples give the same vectors.
pub proof fn lemma_field_deterministic(
    builder: FlowVectorFieldBuilder,
    layout: GridLayout,
    magnitude: i64,
    samples: Seq<i64>,
    first: Seq<FlowVector>,
    second: Seq<FlowVector>,
)
    requires
        first == builder.field(layout, magnitude, samples),
        second == builder.field(layout, magnitude, samples),
    ensures
        first == second,
        first.len() == second.len(),
        forall|i: int| 0 <= i < first.len() ==> first[i] == second[i],
{
}

/// The heading of column `col` in a field of `height` columns.
pub fn curve_heading_of(col: usize, height: usize) -> (h: i64)
    requires
        col < height,
        height <= crate::grid::MAX_GRID_DIM,
    ensures
        h == curve_heading(col as int, height as int),
        0 <= h < HALF_TURN,
{
    proof {
        lemma_curve_heading_range(col as int, height as int);
        assert(0 <= col * HALF_TURN <= 4096 * HALF_TURN) by (nonlinear_arith)
            requires
                0 <= col < 4096,
        ;
    }
    (col as i64 * HALF_TURN) / (height as i64)
}

/// The heading that the noise sample `sample` gives.
pub fn noise_heading_of(sample: i64) -> (h: i64)
    ensures
        h == noise_heading(sample as int),
        -HALF_TURN < h <= HALF_TURN,
{
    let s: i128 = sample as i128 + UNIT as i128;
    let n: i64 = if s <= 0 {
        0
    } else if s / 2 > UNIT as i128 {
        UNIT
    } else {
        (s / 2) as i64
    };
    assert(n == normalized_sample(sample as int));
    canonical_heading(n * 360)
}

/// Puts `headings` onto the cells of `layout`, column by column.
fn assemble(layout: &GridLayout, magnitude: i64, headings: &Vec<i64>) -> (r: Vec<FlowVector>)
    requires
        layout.wf(),
        0 < magnitude,
        headings.len() == layout.cells(),
        forall|i: int|
            0 <= i < headings.len() ==> -HALF_TURN < (#[trigger] headings[i]) <= HALF_TURN,
    ensures
        r@ == field_of(*layout, magnitude, headings@),
        is_field_on(r@, *layout, magnitude),
{
    let ghost field = field_of(*layout, magnitude, headings@);
    let mut out: Vec<FlowVector> = Vec::new();
    let mut col: usize = 0;
    while col < layout.height
        invariant
            layout.wf(),
            0 < magnitude,
            headings.len() == layout.cells(),
            forall|i: int|
                0 <= i < headings.len() ==> -HALF_TURN < (#[trigger] headings[i]) <= HALF_TURN,
            field == field_of(*layout, magnitude, headings@),
            col <= layout.height,
            out@.len() == col * layout.width,
            forall|i: int| 0 <= i < out@.len() ==> out@[i] == field[i],
        decreases layout.height - col,
    {
        let mut row: usize = 0;
        while row < layout.width
            invariant
                layout.wf(),
                0 < magnitude,
                headings.len() == layout.cells(),
                forall|i: int|
                    0 <= i < headings.len() ==> -HALF_TURN < (#[trigger] headings[i])
                        <= HALF_TURN,
                field == field_of(*layout, magnitude, headings@),
                col < layout.height,
                row <= layout.width,
                out@.len() == col * layout.width + row,
                forall|i: int| 0 <= i < out@.len() ==> out@[i] == field[i],
            decreases layout.width - row,
        {
            let i: usize = layout.index(row, col);
            let xy: Point2 = layout.position(row, col);
            proof {
                lemma_index_in_range(*layout, row as int, col as int);
                lemma_canonical(headings[i as int] as int);
            }
            let mut fv: FlowVector = FlowVector::new(xy, magnitude).unwrap();
            fv.rotate(headings[i]);
            assert(fv == field[i as int]);
            out.push(fv);
            row = row + 1;
        }
        proof {
            assert((col + 1) * layout.width == col * layout.width + layout.width)
                by (nonlinear_arith);
        }
        col = col + 1;
    }
    proof {
        assert(layout.height * layout.width == layout.width * layout.height)
            by (nonlinear_arith);
    }
    assert(out@ =~= field);
    out
}

/// The curve headings of all cells.
fn all_curve_headings(layout: &GridLayout) -> (r: Vec<i64>)
    requires
        layout.wf(),
    ensures
        r@ == curve_headings(*layout),
        forall|i: int| 0 <= i < r.len() ==> -HALF_TURN < (#[trigger] r[i]) <= HALF_TURN,
{
    let n: usize = layout.len();
    let mut out: Vec<i64> = Vec::new();
    let mut i: usize = 0;
    while i < n
        invariant
            layout.wf(),
            n == layout.cells(),
            i <= n,
            out@.len() == i,
            forall|j: int| 0 <= j < i ==> out@[j] == curve_headings(*layout)[j],
            forall|j: int| 0 <= j < i ==> -HALF_TURN < (#[trigger] out@[j]) <= HALF_TURN,
        decreases n - i,
    {
        proof {
            lemma_index_covers(*layout, i as int);
        }
        let h: i64 = curve_heading_of(i / layout.width, layout.height);
        out.push(h);
        i = i + 1;
    }
    assert(out@ =~= curve_headings(*layout));
    out
}

/// The headings that `samples` give.
fn all_noise_headings(samples: &Vec<i64>) -> (r: Vec<i64>)
    ensures
        r@ == noise_headings(samples@),
        forall|i: int| 0 <= i < r.len() ==> -HALF_TURN < (#[trigger] r[i]) <= HALF_TURN,
{
    let n: usize = samples.len();
    let mut out: Vec<i64> = Vec::new();
    let mut i: usize = 0;
    while i < n
        invariant
            n == samples.len(),
            i <= n,
            out@.len() == i,
            forall|j: int| 0 <= j < i ==> out@[j] == noise_headings(samples@)[j],
            forall|j: int| 0 <= j < i ==> -HALF_TURN < (#[trigger] out@[j]) <= HALF_TURN,
        decreases n - i,
    {
        let h: i64 = noise_heading_of(samples[i]);
        out.push(h);
        i = i + 1;
    }
    assert(out@ =~= noise_headings(samples@));
    out
}

/// Why a field could not be built.
#[derive(Clone, Copy, Debug, PartialEq, Eq, Structural)]
pub enum FieldError {
    /// The layout or the magnitude is refused, for the reason given.
    Config(ConfigError),
    /// There is not exactly one noise sample for each cell.
    SampleCount,
}

/// The fault of a layout and magnitude, if they have one.
pub open spec fn layout_fault(layout: GridLayout, magnitude: i64) -> Option<ConfigError> {
    if layout.spacing <= 0 {
        Some(ConfigError::ZeroSpacing)
    } else if magnitude <= 0 {
        Some(ConfigError::ZeroMagnitude)
    } else if layout.width == 0 || layout.height == 0 {
        Some(ConfigError::EmptyGrid)
    } else if !layout.wf() || magnitude > MAX_COORD {
        Some(ConfigError::OutOfRange)
    } else {
        None
    }
}

/// Names the fault of a layout and magnitude, or accepts them.
pub fn check_layout(layout: &GridLayout, magnitude: i64) -> (r: Result<(), ConfigError>)
    ensures
        r == (match layout_fault(*layout, magnitude) {
            Some(e) => Err::<(), ConfigError>(e),
            None => Ok::<(), ConfigError>(()),
        }),
        r is Ok ==> layout.wf() && 0 < magnitude <= MAX_COORD,
{
    if layout.spacing <= 0 {
        Err(ConfigError::ZeroSpacing)
    } else if magnitude <= 0 {
        Err(ConfigError::ZeroMagnitude)
    } else if layout.width == 0 || layout.height == 0 {
        Err(ConfigError::EmptyGrid)
    } else if layout.spacing > MAX_COORD || layout.width > crate::grid::MAX_GRID_DIM
        || layout.height > crate::grid::MAX_GRID_DIM || layout.origin.x < -2 * MAX_COORD
        || layout.origin.x > 2 * MAX_COORD || layout.origin.y < -2 * MAX_COORD || layout.origin.y
        > 2 * MAX_COORD || magnitude > MAX_COORD {
        Err(ConfigError::OutOfRange)
    } else {
        Ok(())
    }
}

/// Builds the field whose headings sweep half a turn over the columns: the
/// heading of a cell is its column's share of 180 degrees, the same in every
/// row. A degenerate layout or magnitude is refused.
pub fn right_hand_curve_vectors(layout: &GridLayout, magnitude: i64) -> (r: Result<
    Vec<FlowVector>,
    ConfigError,
>)
    ensures
        match layout_fault(*layout, magnitude) {
            Some(e) => r == Err::<Vec<FlowVector>, ConfigError>(e),
            None => r is Ok && r.unwrap()@ == right_hand_curve_field(*layout, magnitude)
                && is_field_on(r.unwrap()@, *layout, magnitude),
        },
{
    match check_layout(layout, magnitude) {
        Err(e) => Err(e),
        Ok(_) => {
            let headings: Vec<i64> = all_curve_headings(layout);
            Ok(assemble(layout, magnitude, &headings))
        },
    }
}

/// Builds the field whose headings come from noise samples, one sample for
/// each cell in storage order. A degenerate layout or magnitude is refused,
/// and so is a wrong number of samples.
pub fn noise_vectors(layout: &GridLayout, magnitude: i64, samples: &Vec<i64>) -> (r: Result<
    Vec<FlowVector>,
    FieldError,
>)
    ensures
        match layout_fault(*layout, magnitude) {
            Some(e) => r == Err::<Vec<FlowVector>, FieldError>(FieldError::Config(e)),
            None => if samples.len() == layout.cells() {
                r is Ok && r.unwrap()@ == noise_field(*layout, magnitude, samples@) && is_field_on(
                    r.unwrap()@,
                    *layout,
                    magnitude,
                )
            } else {
                r == Err::<Vec<FlowVector>, FieldError>(FieldError::SampleCount)
            },
        },
{
    match check_layout(layout, magnitude) {
        Err(e) => Err(FieldError::Config(e)),
        Ok(_) => {
            if samples.len() != layout.len() {
                Err(FieldError::SampleCount)
            } else {
                let headings: Vec<i64> = all_noise_headings(samples);
                Ok(assemble(layout, magnitude, &headings))
            }
        },
    }
}

/// Builds the curve field on the grid that the model's viewport and
/// configuration give now.
pub fn new_right_hand_curve_flow_vectors(model: &Model) -> (r: Vec<FlowVector>)
    requires
        model.wf(),
    ensures
        r@ == right_hand_curve_field(model@.fresh_layout(), model@.config.vector_magnitude),
        is_field_on(r@, model@.fresh_layout(), model@.config.vector_magnitude),
{
    let layout: GridLayout = model.fresh_layout();
    right_hand_curve_vectors(&layout, model.config().vector_magnitude).unwrap()
}

/// Builds a noise field on the grid that the model's viewport and
/// configuration give now, from one sample for each cell, taken at the
/// model's sample points. A wrong number of samples is refused.
pub fn create_noise_flow_vectors(model: &Model, samples: &Vec<i64>) -> (r: Result<
    Vec<FlowVector>,
    FieldError,
>)
    requires
        model.wf(),
    ensures
        samples@.len() == model@.fresh_layout().cells() ==> r is Ok && r.unwrap()@ == noise_field(
            model@.fresh_layout(),
            model@.config.vector_magnitude,
            samples@,
        ),
        samples@.len() != model@.fresh_layout().cells() ==> r == Err::<
            Vec<FlowVector>,
            FieldError,
        >(FieldError::SampleCount),
{
    let layout: GridLayout = model.fresh_layout();
    noise_vectors(&layout, model.config().vector_magnitude, samples)
}

/// The ways a field can be built.
#[derive(Debug, Clone, Copy, PartialEq, Eq, Structural)]
pub enum FlowVectorFieldBuilder {
    RightHandCurve,
    BasicMulti,
    Billow,
    TerracedBillow,
    Fbm,
    HybridMulti,
    OpenSimplex,
    Value,
    Worley,
}

impl FlowVectorFieldBuilder {
    /// Every way but the curve takes its headings from noise samples.
    pub open spec fn spec_uses_noise(&self) -> bool {
        *self != FlowVectorFieldBuilder::RightHandCurve
    }

    /// The field this way builds on `layout` from `samples`, which the
    /// curve does not look at.
    pub open spec fn field(&self, layout: GridLayout, magnitude: i64, samples: Seq<i64>) -> Seq<
        FlowVector,
    > {
        if self.spec_uses_noise() {
            noise_field(layout, magnitude, samples)
        } else {
            right_hand_curve_field(layout, magnitude)
        }
    }

    /// The failure of this way on the given input, if it fails.
    pub open spec fn failure(&self, layout: GridLayout, magnitude: i64, samples: Seq<i64>) -> Option<
        FieldError,
    > {
        match layout_fault(layout, magnitude) {
            Some(e) => Some(FieldError::Config(e)),
            None => if self.spec_uses_noise() && samples.len() != layout.cells() {
                Some(FieldError::SampleCount)
            } else {
                None
            },
        }
    }

    /// Whether the headings come from noise samples.
    pub fn uses_noise(&self) -> (b: bool)
        ensures
            b == self.spec_uses_noise(),
    {
        match self {
            FlowVectorFieldBuilder::RightHandCurve => false,
            _ => true,
        }
    }

    /// The number of octaves the kernel is to be set to, where this way
    /// departs from the kernel's own: six for the terraced billow.
    pub fn octaves(&self) -> (n: Option<usize>)
        ensures
            n == (if *self == FlowVectorFieldBuilder::TerracedBillow {
                Some(6usize)
            } else {
                None
            }),
    {
        match self {
            FlowVectorFieldBuilder::TerracedBillow => Some(6),
            _ => None,
        }
    }

    /// Builds the field in this way.
    pub fn build(&self, layout: &GridLayout, magnitude: i64, samples: &Vec<i64>) -> (r: Result<
        Vec<FlowVector>,
        FieldError,
    >)
        ensures
            match self.failure(*layout, magnitude, samples@) {
                Some(e) => r == Err::<Vec<FlowVector>, FieldError>(e),
                None => r is Ok && r.unwrap()@ == self.field(*layout, magnitude, samples@)
                    && is_field_on(r.unwrap()@, *layout, magnitude),
            },
    {
        match self {
            FlowVectorFieldBuilder::RightHandCurve => {
                match right_hand_curve_vectors(layout, magnitude) {
                    Ok(v) => Ok(v),
                    Err(e) => Err(FieldError::Config(e)),
                }
            },
            _ => noise_vectors(layout, magnitude, samples),
        }
    }
}

} // verus!
