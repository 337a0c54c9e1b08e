//! Unit directions by table lookup.
//!
//! The library does no trigonometry of its own. The host supplies, once, the
//! unit vectors at a resolution of its choice: entry `i` of a table of `n`
//! entries is the direction of the angle `i * 360 / n` degrees, each
//! component in millionths.

use crate::fixed::{scaled, Point2, FULL_TURN, UNIT};
use vstd::prelude::*;

verus! {

/// The largest number of entries a table may hold.
pub const MAX_TRIG_STEPS: usize = 1_048_576;

/// By how much the squared length of an entry may miss one: what rounding
/// each component to a millionth can cost, and no more.
pub const UNIT_SLACK: i64 = 4_000_000;

/// The squared length of `p`, in millionths of a millionth.
pub open spec fn squared_length(p: Point2) -> int {
    p.x * p.x + p.y * p.y
}

/// `p` is a direction of length one, as far as millionths can say: no
/// component lies more than one unit from zero, and the squared length
/// misses one by no more than [`UNIT_SLACK`]. So no entry is the zero
/// vector, and a step along an entry is as long as the step was meant.
pub open spec fn is_unit_entry(p: Point2) -> bool {
    &&& -UNIT <= p.x <= UNIT
    &&& -UNIT <= p.y <= UNIT
    &&& UNIT * UNIT - UNIT_SLACK <= squared_length(p) <= UNIT * UNIT + UNIT_SLACK
}

/// Whether `p` is a direction of length one, as far as millionths can say.
pub fn check_unit_entry(p: Point2) -> (b: bool)
    ensures
        b == is_unit_entry(p),
{
    if p.x < -UNIT || p.x > UNIT || p.y < -UNIT || p.y > UNIT {
        false
    } else {
        assert(0 <= p.x * p.x <= UNIT * UNIT && 0 <= p.y * p.y <= UNIT * UNIT)
            by (nonlinear_arith)
            requires
                -UNIT <= p.x <= UNIT,
                -UNIT <= p.y <= UNIT,
        ;
        let squared: i64 = p.x * p.x + p.y * p.y;
        UNIT * UNIT - UNIT_SLACK <= squared && squared <= UNIT * UNIT + UNIT_SLACK
    }
}

/// A step of at least two millionths along a unit entry moves: not both
/// of its components vanish.
pub proof fn lemma_unit_entry_moves(p: Point2, step: int)
    requires
        is_unit_entry(p),
        step >= 2 || step <= -2,
    ensures
        scaled(step, p.x as int) != 0 || scaled(step, p.y as int) != 0,
{
    let x = p.x as int;
    let y = p.y as int;
    if -600_000 < x < 600_000 && -600_000 < y < 600_000 {
        assert(x * x + y * y < 720_000_000_000) by (nonlinear_arith)
            requires
                -600_000 < x < 600_000,
                -600_000 < y < 600_000,
        ;
        assert(false);
    }
    let c = if x <= -600_000 || x >= 600_000 {
        x
    } else {
        y
    };
    let n = step * c;
    assert(n >= 1_000_000 || n <= -1_000_000) by (nonlinear_arith)
        requires
            n == step * c,
            step >= 2 || step <= -2,
            c <= -600_000 || c >= 600_000,
    ;
    if n >= 1_000_000 {
        assert(n / 1_000_000 >= 1) by (nonlinear_arith)
            requires
                n >= 1_000_000,
        ;
    } else {
        assert((-n) / 1_000_000 >= 1) by (nonlinear_arith)
            requires
                -n >= 1_000_000,
        ;
    }
    assert(scaled(step, c) != 0);
}

/// What a table must satisfy: it is not empty, not larger than
/// [`MAX_TRIG_STEPS`], and holds only unit entries.
pub open spec fn valid_entries(s: Seq<Point2>) -> bool {
    &&& 0 < s.len() <= MAX_TRIG_STEPS
    &&& forall|i: int| 0 <= i < s.len() ==> is_unit_entry(#[trigger] s[i])
}

/// The table slot that serves `heading`: the heading is reduced to
/// `[0, 360)` degrees and the slot at or just below it is taken.
pub open spec fn slot_of(heading: int, steps: int) -> int {
    (heading % (FULL_TURN as int)) * steps / (FULL_TURN as int)
}

/// A table of unit directions covering one full turn.
pub struct TrigTable {
    entries: Vec<Point2>,
}

impl View for TrigTable {
    type V = Seq<Point2>;

    closed spec fn view(&self) -> Seq<Point2> {
        self.entries@
    }
}

/// The slot of any heading lies inside a table of `steps` entries.
pub proof fn lemma_slot_in_range(heading: int, steps: int)
    requires
        steps > 0,
    ensures
        0 <= slot_of(heading, steps) < steps,
{
    let h = heading % (FULL_TURN as int);
    assert(0 <= h < FULL_TURN);
    assert(0 <= h * steps < FULL_TURN * steps) by (nonlinear_arith)
        requires
            0 <= h < FULL_TURN,
            steps > 0,
    ;
    assert(0 <= (h * steps) / (FULL_TURN as int) < steps) by (nonlinear_arith)
        requires
            0 <= h * steps < FULL_TURN * steps,
            FULL_TURN > 0,
    ;
}

impl TrigTable {
    /// The validity of the table, which every value of the type has.
    #[verifier::type_invariant]
    pub closed spec fn inv(&self) -> bool {
        valid_entries(self.entries@)
    }

    /// What the validity of a table says of its entries.
    pub proof fn lemma_valid(&self)
        requires
            self.inv(),
        ensures
            valid_entries(self@),
    {
    }

    /// Accepts `entries` exactly when they are valid.
    pub fn new(entries: Vec<Point2>) -> (r: Option<TrigTable>)
        ensures
            r is Some <==> valid_entries(entries@),
            r is Some ==> r.unwrap()@ == entries@ && r.unwrap().inv(),
    {
        let n: usize = entries.len();
        if n == 0 || n > MAX_TRIG_STEPS {
            return None;
        }
        let mut i: usize = 0;
        while i < n
            invariant
                n == entries.len(),
                i <= n,
                forall|j: int| 0 <= j < i ==> is_unit_entry(#[trigger] entries@[j]),
            decreases n - i,
        {
            if !check_unit_entry(entries[i]) {
                return None;
            }
            i = i + 1;
        }
        Some(TrigTable { entries })
    }

    /// The number of entries.
    pub fn steps(&self) -> (n: usize)
        ensures
            n == self@.len(),
            0 < n <= MAX_TRIG_STEPS,
    {
        proof {
            use_type_invariant(self);
        }
        self.entries.len()
    }

    /// The unit direction of `heading`, given in millionths of a degree.
    pub fn unit(&self, heading: i64) -> (r: Point2)
        ensures
            r == self@[slot_of(heading as int, self@.len() as int)],
            is_unit_entry(r),
    {
        proof {
            use_type_invariant(self);
            lemma_slot_in_range(heading as int, self@.len() as int);
        }
        let m: i64 = heading % FULL_TURN;
        let h: i64 = if m < 0 {
            m + FULL_TURN
        } else {
            m
        };
        assert(h as int == (heading as int) % (FULL_TURN as int));
        let n: u64 = self.entries.len() as u64;
        assert(0 <= (h as int) * (n as int) < FULL_TURN * (n as int)) by (nonlinear_arith)
            requires
                0 <= h < FULL_TURN,
                n > 0,
        ;
        let slot: u64 = (h as u64 * n) / (FULL_TURN as u64);
        self.entries[slot as usize]
    }
}

} // verus!
