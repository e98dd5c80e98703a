use vstd::prelude::*;

use crate::rng::{choose_from, draw_in_i64, draw_in_usize};

verus! {

/// One unit of a real quantity: reals are held in thousandths.
pub const UNIT: i64 = 1000;

/// The largest magnitude that a configured real may have, in thousandths.
pub const REAL_LIMIT: i64 = 1_000_000_000_000_000;

/// A configuration scalar that resolves to a concrete number only when it is
/// generated: a fixed value, a uniform choice among values, or a uniform draw
/// from the half-open range `[min, max)`.
#[derive(Debug, Clone)]
pub enum ValueProperty<T> {
    Fixed(T),
    Choice(Vec<T>),
    Range(T, T),
}

pub open spec fn real_in_limit(v: i64) -> bool {
    -REAL_LIMIT <= v <= REAL_LIMIT
}

/// A hue that the palette stages can work with, in thousandths of a degree.
pub open spec fn hue_in_range(h: int) -> bool {
    -8 * REAL_LIMIT <= h <= 8 * REAL_LIMIT
}

impl ValueProperty<usize> {
    /// Well-formed: a choice is non-empty, a range has `min <= max`.
    pub open spec fn wf(&self) -> bool {
        match self {
            ValueProperty::Fixed(_) => true,
            ValueProperty::Choice(vs) => vs.len() > 0,
            ValueProperty::Range(lo, hi) => *lo <= *hi,
        }
    }

    /// `v` is a value that `generate` may return.
    pub open spec fn can_yield(&self, v: usize) -> bool {
        match self {
            ValueProperty::Fixed(x) => v == *x,
            ValueProperty::Choice(vs) => vs@.contains(v),
            ValueProperty::Range(lo, hi) => if *lo < *hi {
                *lo <= v < *hi
            } else {
                v == *lo
            },
        }
    }

    pub fn generate(&self) -> (r: usize)
        requires
            self.wf(),
        ensures
            self.can_yield(r),
    {
        match self {
            ValueProperty::Fixed(v) => *v,
            ValueProperty::Choice(vs) => *choose_from(vs),
            ValueProperty::Range(lo, hi) => draw_in_usize(*lo, *hi),
        }
    }
}

impl ValueProperty<i64> {
    /// Well-formed: every value is within [`REAL_LIMIT`], a choice is
    /// non-empty, a range has `min <= max`.
    pub open spec fn wf(&self) -> bool {
        match self {
            ValueProperty::Fixed(x) => real_in_limit(*x),
            ValueProperty::Choice(vs) => vs.len() > 0 && forall|i: int|
                0 <= i < vs.len() ==> #[trigger] real_in_limit(vs@[i]),
            ValueProperty::Range(lo, hi) => real_in_limit(*lo) && real_in_limit(*hi) && *lo <= *hi,
        }
    }

    /// `v` is a value that `generate` may return.
    pub open spec fn can_yield(&self, v: i64) -> bool {
        match self {
            ValueProperty::Fixed(x) => v == *x,
            ValueProperty::Choice(vs) => vs@.contains(v),
            ValueProperty::Range(lo, hi) => if *lo < *hi {
                *lo <= v < *hi
            } else {
                v == *lo
            },
        }
    }

    pub fn generate(&self) -> (r: i64)
        requires
            self.wf(),
        ensures
            self.can_yield(r),
            real_in_limit(r),
    {
        match self {
            ValueProperty::Fixed(v) => *v,
            ValueProperty::Choice(vs) => {
                let r = *choose_from(vs);
                proof {
                    let i = choose|i: int| 0 <= i < vs.len() && vs@[i] == r;
                    assert(real_in_limit(vs@[i]));
                }
                r
            },
            ValueProperty::Range(lo, hi) => draw_in_i64(*lo, *hi),
        }
    }
}

/// A probability-driven switch. Its configured value is the probability of
/// passing, in thousandths: a roll draws `d` uniformly from `[0, 1)` and
/// passes when `d` is below the value.
#[derive(Debug, Clone)]
pub struct Chance {
    pub value: ValueProperty<i64>,
}

impl Chance {
    pub open spec fn wf(&self) -> bool {
        self.value.wf()
    }

    /// The chance never comes up: each of its values is at most zero.
    pub open spec fn is_closed(&self) -> bool {
        forall|v: i64| #[trigger] self.value.can_yield(v) ==> v <= 0
    }

    /// The chance always comes up: each of its values is at least one.
    pub open spec fn is_open(&self) -> bool {
        forall|v: i64| #[trigger] self.value.can_yield(v) ==> v >= UNIT
    }

    /// `outcome` is a result that `roll` may return.
    pub open spec fn can_roll(&self, outcome: bool) -> bool {
        exists|v: i64, d: i64|
            self.value.can_yield(v) && 0 <= d < UNIT && outcome == #[trigger] passes_spec(v, d)
    }

    pub fn new(value: ValueProperty<i64>) -> (r: Chance)
        ensures
            r.value == value,
    {
        Chance { value }
    }

    /// Draws the configured probability and a uniform `d` from `[0, 1)`, and
    /// is true when `d` is below the probability.
    pub fn roll(&self) -> (r: bool)
        requires
            self.wf(),
        ensures
            self.can_roll(r),
            self.is_closed() ==> !r,
            self.is_open() ==> r,
    {
        let v = self.value.generate();
        let d = draw_in_i64(0, UNIT);
        let r = passes(v, d);
        assert(self.value.can_yield(v) && 0 <= d < UNIT && r == passes_spec(v, d));
        r
    }
}

/// A chance of probability `value` comes up on `draw` when the draw is below
/// it.
pub open spec fn passes_spec(value: i64, draw: i64) -> bool {
    draw < value
}

/// The decision of a chance for a given probability and draw.
pub fn passes(value: i64, draw: i64) -> (r: bool)
    ensures
        r == passes_spec(value, draw),
{
    draw < value
}

/// A closed chance never comes up: no draw is below a value at most zero.
pub proof fn lemma_closed_chance_never_passes(c: Chance)
    requires
        c.is_closed(),
    ensures
        !c.can_roll(true),
{
    if c.can_roll(true) {
        let (v, d) = choose|v: i64, d: i64|
            c.value.can_yield(v) && 0 <= d < UNIT && true == #[trigger] passes_spec(v, d);
        assert(c.value.can_yield(v));
    }
}

/// An open chance always comes up: every draw is below a value of at least
/// one.
pub proof fn lemma_open_chance_always_passes(c: Chance)
    requires
        c.is_open(),
    ensures
        !c.can_roll(false),
{
    if c.can_roll(false) {
        let (v, d) = choose|v: i64, d: i64|
            c.value.can_yield(v) && 0 <= d < UNIT && false == #[trigger] passes_spec(v, d);
        assert(c.value.can_yield(v));
    }
}

} // verus!
