use vstd::prelude::*;

use crate::config::{
    count_field, count_field_ok, count_field_opt, count_field_or, count_field_req, count_or,
    count_required, field, get, items_of, malformed_field, parse_property_as_f64,
    parse_property_as_usize, real_field, real_field_ok, real_field_opt, real_field_or,
    real_field_req, real_list, real_or, real_properties_of, all_real_properties, real_required,
    text_field, text_field_exec, ConfigError, ConfigNode,
};
use crate::fixed::{mul_div, scaled};
use crate::text::text_eq;
use crate::hue::FULL_TURN;
use crate::rng::draw_in_i64;
use crate::value::{hue_in_range, real_in_limit, ValueProperty, UNIT};

verus! {

/// The brightest luminance, in thousandths.
pub const MAX_LUM: i64 = 100_000;

/// The spread of a looping preference where none is configured, in
/// thousandths.
pub const DEFAULT_SPREAD_SIZE: i64 = 10_000;

/// The `i`-th of `s` luminances spread evenly over `[min, max]`; a single
/// stack holds the midpoint.
pub open spec fn distributed_lum(min: int, max: int, s: int, i: int) -> int {
    if s == 1 {
        min + scaled(max - min, 1, 2)
    } else {
        min + scaled(max - min, i, s - 1)
    }
}

/// `l` may be drawn from the half-open range `[lo, hi)`, or is `lo` when the
/// range is empty.
pub open spec fn drawn_from(lo: int, hi: int, l: int) -> bool {
    if lo < hi {
        lo <= l < hi
    } else {
        l == lo
    }
}

pub open spec fn max_int(a: int, b: int) -> int {
    if a >= b {
        a
    } else {
        b
    }
}

pub open spec fn min_int(a: int, b: int) -> int {
    if a <= b {
        a
    } else {
        b
    }
}

pub open spec fn clamp_int(v: int, lo: int, hi: int) -> int {
    max_int(lo, min_int(v, hi))
}

/// The start of zone `i` of `s` equal zones over `[min, max]`, widened by
/// `overlap` and kept inside the span.
pub open spec fn area_start(min: int, max: int, s: int, i: int, overlap: int) -> int {
    max_int(min + scaled(max - min, i, s) - overlap, min)
}

/// The end of zone `i` of `s` equal zones over `[min, max]`, widened by
/// `overlap` and kept inside the span.
pub open spec fn area_end(min: int, max: int, s: int, i: int, overlap: int) -> int {
    min_int(min + scaled(max - min, i + 1, s) + overlap, max)
}

/// The remainder of `a` by `m` with the sign of `a`.
pub open spec fn rem_trunc(a: int, m: int) -> int {
    if a >= 0 {
        a % m
    } else {
        -((-a) % m)
    }
}

/// The position of `hue` relative to `focus` on a triangle wave with
/// `segments` rises and falls per turn, in thousandths of `[0, 1]`.
pub open spec fn looping_fraction(focus: int, hue: int, segments: int) -> int {
    let diff = if focus >= hue {
        focus - hue
    } else {
        hue - focus
    };
    let loc = ((diff * segments) / 360) % (2 * UNIT);
    if loc >= UNIT {
        loc - UNIT
    } else {
        UNIT - loc
    }
}

/// The low end of the spread around `fraction`, in thousandths of `[0, 1]`.
pub open spec fn spread_low(fraction: int, size: int, c_min: int) -> int {
    let lo = max_int(fraction - size, c_min);
    if fraction < lo {
        fraction
    } else {
        lo
    }
}

/// The high end of the spread around `fraction`, in thousandths of `[0, 1]`.
pub open spec fn spread_high(fraction: int, size: int, c_max: int) -> int {
    let hi = min_int(fraction + size, c_max);
    if fraction > hi {
        fraction
    } else {
        hi
    }
}

/// Every pair of `group` carries `hue`.
pub open spec fn all_with_hue(group: Seq<(i64, i64)>, hue: i64) -> bool {
    forall|j: int| 0 <= j < group.len() ==> (#[trigger] group[j]).1 == hue
}

/// One pair whose luminance `exact` may yield.
pub open spec fn exact_group(exact: ValueProperty<i64>, hue: i64, group: Seq<(i64, i64)>) -> bool {
    group.len() == 1 && group[0].1 == hue && exact.can_yield(group[0].0)
}

/// One pair per entry of `exact`, each luminance a value that entry may
/// yield.
pub open spec fn stacked_exact_group(
    exact: Seq<ValueProperty<i64>>,
    hue: i64,
    group: Seq<(i64, i64)>,
) -> bool {
    &&& group.len() == exact.len()
    &&& all_with_hue(group, hue)
    &&& forall|j: int| 0 <= j < group.len() ==> exact[j].can_yield(#[trigger] group[j].0)
}

/// `s` pairs with luminances in `[0, 100)`.
pub open spec fn random_group(s: int, hue: i64, group: Seq<(i64, i64)>) -> bool {
    &&& group.len() == s
    &&& all_with_hue(group, hue)
    &&& forall|j: int| 0 <= j < group.len() ==> 0 <= (#[trigger] group[j]).0 < MAX_LUM
}

/// The `s` evenly spread luminances over `[min, max]`.
pub open spec fn distributed_group(min: int, max: int, s: int, hue: i64, group: Seq<(i64, i64)>) -> bool {
    &&& group.len() == s
    &&& forall|j: int|
        0 <= j < group.len() ==> #[trigger] group[j] == (distributed_lum(min, max, s, j) as i64, hue)
}

/// One draw in each of `s` zones of `[min, max]`.
pub open spec fn area_group(
    overlap: ValueProperty<i64>,
    min: int,
    max: int,
    s: int,
    hue: i64,
    group: Seq<(i64, i64)>,
) -> bool {
    &&& group.len() == s
    &&& all_with_hue(group, hue)
    &&& forall|j: int|
        0 <= j < group.len() ==> #[trigger] area_sample(overlap, min, max, s, j, group[j].0 as int)
}

/// `l` may be the draw of zone `j` for some overlap that `overlap` yields.
pub open spec fn area_sample(overlap: ValueProperty<i64>, min: int, max: int, s: int, j: int, l: int) -> bool {
    exists|ov: i64|
        #[trigger] overlap.can_yield(ov) && drawn_from(
            area_start(min, max, s, j, ov as int),
            area_end(min, max, s, j, ov as int),
            l,
        )
}

/// The `s` evenly spread luminances, each nudged and clamped.
pub open spec fn nudge_group(
    nudge: int,
    min: int,
    max: int,
    s: int,
    hue: i64,
    group: Seq<(i64, i64)>,
) -> bool {
    &&& group.len() == s
    &&& all_with_hue(group, hue)
    &&& forall|j: int|
        0 <= j < group.len() ==> #[trigger] nudge_sample(nudge, min, max, s, j, group[j].0 as int)
}

/// `l` is stack `j` of `s` moved by some draw from `[-nudge, nudge)` and
/// clamped to `[0, 100]`.
pub open spec fn nudge_sample(nudge: int, min: int, max: int, s: int, j: int, l: int) -> bool {
    exists|d: int|
        #[trigger] drawn_from(-nudge, nudge, d) && l == clamp_int(
            distributed_lum(min, max, s, j) + d,
            0,
            MAX_LUM as int,
        )
}

/// The looping-preference luminance of `hue`, then its spread samples: as
/// many as configured when the spread range is non-empty, none otherwise.
pub open spec fn looping_group(
    focus: int,
    segments: int,
    amount: int,
    size: int,
    c_min: int,
    c_max: int,
    hue: i64,
    group: Seq<(i64, i64)>,
) -> bool {
    let f = looping_fraction(focus, hue as int, segments);
    let lo = spread_low(f, size, c_min) * 100;
    let hi = spread_high(f, size, c_max) * 100;
    &&& group.len() == 1 + (if lo < hi {
        amount
    } else {
        0
    })
    &&& all_with_hue(group, hue)
    &&& group[0].0 == f * 100
    &&& forall|j: int| 1 <= j < group.len() ==> lo <= (#[trigger] group[j]).0 < hi
}

/// One way of attaching luminances to a list of hues.
#[derive(Debug)]
pub enum LumStrategyKind {
    /// A fixed stack of luminances for every hue.
    StackedExact { exact: Vec<ValueProperty<i64>> },
    /// One luminance for every hue.
    Exact { exact: ValueProperty<i64> },
    /// `stacks` uniform luminances per hue (one when absent).
    Random { stacks: Option<ValueProperty<usize>> },
    /// `stacks` luminances spread evenly over the clamp range.
    StackDistributed { stacks: ValueProperty<usize> },
    /// One draw in each of `stacks` zones of the clamp range, zones widened by
    /// `overlap`.
    StackDistributedArea { stacks: ValueProperty<usize>, overlap: ValueProperty<i64> },
    /// Evenly spread luminances moved by a bounded random nudge.
    StackDistributedNudge { stacks: ValueProperty<usize>, nudge_size: ValueProperty<i64> },
    /// Luminance from the angular distance between each hue and a focus hue,
    /// folded by a triangle wave, with optional spread samples around it.
    LoopingPreference {
        focus_hue: ValueProperty<i64>,
        segments: ValueProperty<usize>,
        spread: (ValueProperty<usize>, ValueProperty<i64>),
        clamp: (ValueProperty<i64>, ValueProperty<i64>),
    },
}

/// `s` is a stack count that a random strategy may use: drawn, or one by
/// default.
pub open spec fn random_stacks(stacks: Option<ValueProperty<usize>>, s: usize) -> bool {
    match stacks {
        Some(p) => p.can_yield(s),
        None => s == 1,
    }
}

/// `hues` with every entry in the range a palette works with.
pub open spec fn hues_in_limit(hues: Seq<i64>) -> bool {
    forall|i: int| 0 <= i < hues.len() ==> #[trigger] hue_in_range(hues[i] as int)
}

/// Appends `group` to `out`.
fn append_pairs(out: &mut Vec<(i64, i64)>, group: Vec<(i64, i64)>)
    ensures
        final(out)@ == old(out)@ + group@,
{
    let mut k: usize = 0;
    while k < group.len()
        invariant
            0 <= k <= group.len(),
            out@ == old(out)@ + group@.take(k as int),
        decreases group.len() - k,
    {
        out.push(group[k]);
        k = k + 1;
        assert(out@ =~= old(out)@ + group@.take(k as int));
    }
    assert(group@.take(group@.len() as int) =~= group@);
}

impl LumStrategyKind {
    pub open spec fn wf(&self) -> bool {
        match self {
            LumStrategyKind::StackedExact { exact } => forall|i: int|
                0 <= i < exact.len() ==> (#[trigger] exact@[i]).wf(),
            LumStrategyKind::Exact { exact } => exact.wf(),
            LumStrategyKind::Random { stacks } => match stacks {
                Some(s) => s.wf(),
                None => true,
            },
            LumStrategyKind::StackDistributed { stacks } => stacks.wf(),
            LumStrategyKind::StackDistributedArea { stacks, overlap } => stacks.wf() && overlap.wf(),
            LumStrategyKind::StackDistributedNudge { stacks, nudge_size } => stacks.wf()
                && nudge_size.wf(),
            LumStrategyKind::LoopingPreference { focus_hue, segments, spread, clamp } => focus_hue.wf()
                && segments.wf() && spread.0.wf() && spread.1.wf() && clamp.0.wf() && clamp.1.wf(),
        }
    }

    /// `groups[h]` is a run of pairs that this strategy may attach to
    /// `hues[h]` in one call over `[min, max]`.
    pub open spec fn can_attach(&self, hues: Seq<i64>, min: int, max: int, groups: Seq<Seq<(i64, i64)>>) -> bool {
        groups.len() == hues.len() && match self {
            LumStrategyKind::StackedExact { exact } => forall|h: int|
                0 <= h < hues.len() ==> stacked_exact_group(exact@, hues[h], #[trigger] groups[h]),
            LumStrategyKind::Exact { exact } => forall|h: int|
                0 <= h < hues.len() ==> exact_group(*exact, hues[h], #[trigger] groups[h]),
            LumStrategyKind::Random { stacks } => exists|s: usize|
                #[trigger] random_stacks(*stacks, s) && forall|h: int|
                    0 <= h < hues.len() ==> #[trigger] random_group(s as int, hues[h], groups[h]),
            LumStrategyKind::StackDistributed { stacks } => exists|s: usize|
                stacks.can_yield(s) && forall|h: int|
                    0 <= h < hues.len() ==> #[trigger] distributed_group(
                        min,
                        max,
                        s as int,
                        hues[h],
                        groups[h],
                    ),
            LumStrategyKind::StackDistributedArea { stacks, overlap } => exists|s: usize|
                stacks.can_yield(s) && forall|h: int|
                    0 <= h < hues.len() ==> #[trigger] area_group(
                        *overlap,
                        min,
                        max,
                        s as int,
                        hues[h],
                        groups[h],
                    ),
            LumStrategyKind::StackDistributedNudge { stacks, nudge_size } => exists|
                s: usize,
                n: i64,
            |
                stacks.can_yield(s) && nudge_size.can_yield(n) && forall|h: int|
                    0 <= h < hues.len() ==> #[trigger] nudge_group(
                        n as int,
                        min,
                        max,
                        s as int,
                        hues[h],
                        groups[h],
                    ),
            LumStrategyKind::LoopingPreference { focus_hue, segments, spread, clamp } => exists|
                f: i64,
                seg: usize,
                amount: usize,
                size: i64,
                c_min: i64,
                c_max: i64,
            |
                focus_hue.can_yield(f) && segments.can_yield(seg) && spread.0.can_yield(amount)
                    && spread.1.can_yield(size) && clamp.0.can_yield(c_min) && clamp.1.can_yield(
                    c_max,
                ) && forall|h: int|
                    0 <= h < hues.len() ==> #[trigger] looping_group(
                        rem_trunc(f as int, FULL_TURN as int),
                        seg as int,
                        amount as int,
                        size as int,
                        c_min as int,
                        c_max as int,
                        hues[h],
                        groups[h],
                    ),
        }
    }

    /// Attaches luminances to `hues` over the clamp range `[min_lum,
    /// max_lum]`; every input hue receives at least the pairs its strategy
    /// prescribes, in input order.
    pub fn generate(&self, hues: &Vec<i64>, min_lum: i64, max_lum: i64) -> (r: Vec<(i64, i64)>)
        requires
            self.wf(),
            hues_in_limit(hues@),
            real_in_limit(min_lum),
            real_in_limit(max_lum),
        ensures
            exists|groups: Seq<Seq<(i64, i64)>>|
                #[trigger] self.can_attach(hues@, min_lum as int, max_lum as int, groups) && r@
                    == groups.flatten(),
    {
        let mut out: Vec<(i64, i64)> = Vec::new();
        let ghost mut groups: Seq<Seq<(i64, i64)>> = Seq::empty();
        match self {
            LumStrategyKind::Exact { exact } => {
                let mut h: usize = 0;
                while h < hues.len()
                    invariant
                        0 <= h <= hues.len(),
                        exact.wf(),
                        groups.len() == h,
                        forall|i: int|
                            0 <= i < h ==> exact_group(*exact, hues@[i], #[trigger] groups[i]),
                        out@ == groups.flatten(),
                    decreases hues.len() - h,
                {
                    let e = exact.generate();
                    let g = vec![(e, hues[h])];
                    proof {
                        groups.lemma_flatten_push(g@);
                        groups = groups.push(g@);
                    }
                    append_pairs(&mut out, g);
                    h = h + 1;
                }
                assert(self.can_attach(hues@, min_lum as int, max_lum as int, groups));
            },
            LumStrategyKind::StackedExact { exact } => {
                let mut h: usize = 0;
                while h < hues.len()
                    invariant
                        0 <= h <= hues.len(),
                        forall|i: int| 0 <= i < exact.len() ==> (#[trigger] exact@[i]).wf(),
                        groups.len() == h,
                        forall|i: int|
                            0 <= i < h ==> stacked_exact_group(
                                exact@,
                                hues@[i],
                                #[trigger] groups[i],
                            ),
                        out@ == groups.flatten(),
                    decreases hues.len() - h,
                {
                    let mut g: Vec<(i64, i64)> = Vec::new();
                    let mut j: usize = 0;
                    while j < exact.len()
                        invariant
                            0 <= j <= exact.len(),
                            0 <= h < hues.len(),
                            forall|i: int| 0 <= i < exact.len() ==> (#[trigger] exact@[i]).wf(),
                            g@.len() == j,
                            all_with_hue(g@, hues@[h as int]),
                            forall|k: int| 0 <= k < j ==> exact@[k].can_yield(#[trigger] g@[k].0),
                        decreases exact.len() - j,
                    {
                        assert(exact@[j as int].wf());
                        let e = exact[j].generate();
                        g.push((e, hues[h]));
                        j = j + 1;
                    }
                    proof {
                        groups.lemma_flatten_push(g@);
                        groups = groups.push(g@);
                    }
                    append_pairs(&mut out, g);
                    h = h + 1;
                }
                assert(self.can_attach(hues@, min_lum as int, max_lum as int, groups));
            },
            LumStrategyKind::Random { stacks } => {
                let s: usize = match stacks {
                    Some(p) => p.generate(),
                    None => 1,
                };
                let mut h: usize = 0;
                while h < hues.len()
                    invariant
                        0 <= h <= hues.len(),
                        groups.len() == h,
                        forall|i: int|
                            0 <= i < h ==> #[trigger] random_group(s as int, hues@[i], groups[i]),
                        out@ == groups.flatten(),
                    decreases hues.len() - h,
                {
                    let mut g: Vec<(i64, i64)> = Vec::new();
                    let mut j: usize = 0;
                    while j < s
                        invariant
                            0 <= j <= s,
                            0 <= h < hues.len(),
                            g@.len() == j,
                            all_with_hue(g@, hues@[h as int]),
                            forall|k: int| 0 <= k < j ==> 0 <= (#[trigger] g@[k]).0 < MAX_LUM,
                        decreases s - j,
                    {
                        let l = draw_in_i64(0, MAX_LUM);
                        g.push((l, hues[h]));
                        j = j + 1;
                    }
                    proof {
                        groups.lemma_flatten_push(g@);
                        groups = groups.push(g@);
                    }
                    append_pairs(&mut out, g);
                    h = h + 1;
                }
                assert(random_stacks(*stacks, s));
                assert(forall|h: int|
                    0 <= h < hues@.len() ==> #[trigger] random_group(s as int, hues@[h], groups[h]));
                assert(self.can_attach(hues@, min_lum as int, max_lum as int, groups));
            },
            LumStrategyKind::StackDistributed { stacks } => {
                let s = stacks.generate();
                let mut h: usize = 0;
                while h < hues.len()
                    invariant
                        0 <= h <= hues.len(),
                        real_in_limit(min_lum),
                        real_in_limit(max_lum),
                        groups.len() == h,
                        forall|i: int|
                            0 <= i < h ==> #[trigger] distributed_group(
                                min_lum as int,
                                max_lum as int,
                                s as int,
                                hues@[i],
                                groups[i],
                            ),
                        out@ == groups.flatten(),
                    decreases hues.len() - h,
                {
                    let g = distributed_stack(min_lum, max_lum, s, hues[h]);
                    proof {
                        groups.lemma_flatten_push(g@);
                        groups = groups.push(g@);
                    }
                    append_pairs(&mut out, g);
                    h = h + 1;
                }
                assert(stacks.can_yield(s) && forall|h: int|
                    0 <= h < hues@.len() ==> #[trigger] distributed_group(
                        min_lum as int,
                        max_lum as int,
                        s as int,
                        hues@[h],
                        groups[h],
                    ));
                assert(self.can_attach(hues@, min_lum as int, max_lum as int, groups));
            },
            LumStrategyKind::StackDistributedArea { stacks, overlap } => {
                let s = stacks.generate();
                let mut h: usize = 0;
                while h < hues.len()
                    invariant
                        0 <= h <= hues.len(),
                        overlap.wf(),
                        real_in_limit(min_lum),
                        real_in_limit(max_lum),
                        groups.len() == h,
                        forall|i: int|
                            0 <= i < h ==> #[trigger] area_group(
                                *overlap,
                                min_lum as int,
                                max_lum as int,
                                s as int,
                                hues@[i],
                                groups[i],
                            ),
                        out@ == groups.flatten(),
                    decreases hues.len() - h,
                {
                    let g = area_stack(overlap, min_lum, max_lum, s, hues[h]);
                    proof {
                        groups.lemma_flatten_push(g@);
                        groups = groups.push(g@);
                    }
                    append_pairs(&mut out, g);
                    h = h + 1;
                }
                assert(stacks.can_yield(s) && forall|h: int|
                    0 <= h < hues@.len() ==> #[trigger] area_group(
                        *overlap,
                        min_lum as int,
                        max_lum as int,
                        s as int,
                        hues@[h],
                        groups[h],
                    ));
                assert(self.can_attach(hues@, min_lum as int, max_lum as int, groups));
            },
            LumStrategyKind::StackDistributedNudge { stacks, nudge_size } => {
                let s = stacks.generate();
                let n = nudge_size.generate();
                let mut h: usize = 0;
                while h < hues.len()
                    invariant
                        0 <= h <= hues.len(),
                        real_in_limit(n),
                        real_in_limit(min_lum),
                        real_in_limit(max_lum),
                        groups.len() == h,
                        forall|i: int|
                            0 <= i < h ==> #[trigger] nudge_group(
                                n as int,
                                min_lum as int,
                                max_lum as int,
                                s as int,
                                hues@[i],
                                groups[i],
                            ),
                        out@ == groups.flatten(),
                    decreases hues.len() - h,
                {
                    let g = nudge_stack(n, min_lum, max_lum, s, hues[h]);
                    proof {
                        groups.lemma_flatten_push(g@);
                        groups = groups.push(g@);
                    }
                    append_pairs(&mut out, g);
                    h = h + 1;
                }
                assert(stacks.can_yield(s) && nudge_size.can_yield(n) && forall|h: int|
                    0 <= h < hues@.len() ==> #[trigger] nudge_group(
                        n as int,
                        min_lum as int,
                        max_lum as int,
                        s as int,
                        hues@[h],
                        groups[h],
                    ));
                assert(self.can_attach(hues@, min_lum as int, max_lum as int, groups));
            },
            LumStrategyKind::LoopingPreference { focus_hue, segments, spread, clamp } => {
                let f = focus_hue.generate();
                let focus = rem_full_turn(f);
                let seg = segments.generate();
                let amount = spread.0.generate();
                let size = spread.1.generate();
                let c_min = clamp.0.generate();
                let c_max = clamp.1.generate();
                let mut h: usize = 0;
                while h < hues.len()
                    invariant
                        0 <= h <= hues.len(),
                        hues_in_limit(hues@),
                        -FULL_TURN < focus < FULL_TURN,
                        focus == rem_trunc(f as int, FULL_TURN as int),
                        real_in_limit(size),
                        real_in_limit(c_min),
                        real_in_limit(c_max),
                        groups.len() == h,
                        forall|i: int|
                            0 <= i < h ==> #[trigger] looping_group(
                                focus as int,
                                seg as int,
                                amount as int,
                                size as int,
                                c_min as int,
                                c_max as int,
                                hues@[i],
                                groups[i],
                            ),
                        out@ == groups.flatten(),
                    decreases hues.len() - h,
                {
                    assert(hue_in_range(hues@[h as int] as int));
                    let g = looping_stack(focus, seg, amount, size, c_min, c_max, hues[h]);
                    proof {
                        groups.lemma_flatten_push(g@);
                        groups = groups.push(g@);
                    }
                    append_pairs(&mut out, g);
                    h = h + 1;
                }
                assert(focus_hue.can_yield(f) && segments.can_yield(seg) && spread.0.can_yield(
                    amount,
                ) && spread.1.can_yield(size) && clamp.0.can_yield(c_min) && clamp.1.can_yield(
                    c_max,
                ) && forall|h: int|
                    0 <= h < hues@.len() ==> #[trigger] looping_group(
                        rem_trunc(f as int, FULL_TURN as int),
                        seg as int,
                        amount as int,
                        size as int,
                        c_min as int,
                        c_max as int,
                        hues@[h],
                        groups[h],
                    ));
                assert(self.can_attach(hues@, min_lum as int, max_lum as int, groups));
            },
        }
        out
    }
}

/// `v` reduced by full turns toward zero, keeping its sign.
pub fn rem_full_turn(v: i64) -> (r: i64)
    ensures
        r == rem_trunc(v as int, FULL_TURN as int),
        -FULL_TURN < r < FULL_TURN,
{
    if v >= 0 {
        v % FULL_TURN
    } else {
        let m: i128 = (-(v as i128)) % (FULL_TURN as i128);
        (-m) as i64
    }
}

/// The `s` evenly spread luminances over `[min_lum, max_lum]` for one hue.
pub fn distributed_stack(min_lum: i64, max_lum: i64, s: usize, hue: i64) -> (r: Vec<(i64, i64)>)
    requires
        real_in_limit(min_lum),
        real_in_limit(max_lum),
    ensures
        distributed_group(min_lum as int, max_lum as int, s as int, hue, r@),
{
    let span = max_lum - min_lum;
    let mut g: Vec<(i64, i64)> = Vec::new();
    let mut i: usize = 0;
    while i < s
        invariant
            0 <= i <= s,
            span == max_lum - min_lum,
            real_in_limit(min_lum),
            real_in_limit(max_lum),
            g@.len() == i,
            forall|j: int|
                0 <= j < i ==> #[trigger] g@[j] == (distributed_lum(
                    min_lum as int,
                    max_lum as int,
                    s as int,
                    j,
                ) as i64, hue),
        decreases s - i,
    {
        let l = if s == 1 {
            min_lum + mul_div(span, 1, 2)
        } else {
            min_lum + mul_div(span, i as u64, (s - 1) as u64)
        };
        g.push((l, hue));
        i = i + 1;
    }
    g
}

/// One draw in each of the `s` zones of `[min_lum, max_lum]` for one hue.
pub fn area_stack(overlap: &ValueProperty<i64>, min_lum: i64, max_lum: i64, s: usize, hue: i64) -> (r: Vec<(i64, i64)>)
    requires
        overlap.wf(),
        real_in_limit(min_lum),
        real_in_limit(max_lum),
    ensures
        area_group(*overlap, min_lum as int, max_lum as int, s as int, hue, r@),
{
    let span = max_lum - min_lum;
    let mut g: Vec<(i64, i64)> = Vec::new();
    let mut i: usize = 0;
    while i < s
        invariant
            0 <= i <= s,
            overlap.wf(),
            span == max_lum - min_lum,
            real_in_limit(min_lum),
            real_in_limit(max_lum),
            g@.len() == i,
            all_with_hue(g@, hue),
            forall|j: int|
                0 <= j < i ==> #[trigger] area_sample(
                    *overlap,
                    min_lum as int,
                    max_lum as int,
                    s as int,
                    j,
                    g@[j].0 as int,
                ),
        decreases s - i,
    {
        let ov = overlap.generate();
        let mut start = min_lum + mul_div(span, i as u64, s as u64) - ov;
        if start < min_lum {
            start = min_lum;
        }
        let mut end = min_lum + mul_div(span, (i + 1) as u64, s as u64) + ov;
        if end > max_lum {
            end = max_lum;
        }
        let l = draw_in_i64(start, end);
        assert(overlap.can_yield(ov) && drawn_from(
            area_start(min_lum as int, max_lum as int, s as int, i as int, ov as int),
            area_end(min_lum as int, max_lum as int, s as int, i as int, ov as int),
            l as int,
        ));
        assert(area_sample(*overlap, min_lum as int, max_lum as int, s as int, i as int, l as int));
        g.push((l, hue));
        i = i + 1;
    }
    g
}

/// The `s` evenly spread luminances for one hue, each moved by a draw from
/// `[-nudge, nudge)` and clamped to `[0, 100]`.
pub fn nudge_stack(nudge: i64, min_lum: i64, max_lum: i64, s: usize, hue: i64) -> (r: Vec<(i64, i64)>)
    requires
        real_in_limit(nudge),
        real_in_limit(min_lum),
        real_in_limit(max_lum),
    ensures
        nudge_group(nudge as int, min_lum as int, max_lum as int, s as int, hue, r@),
{
    let span = max_lum - min_lum;
    let mut g: Vec<(i64, i64)> = Vec::new();
    let mut i: usize = 0;
    while i < s
        invariant
            0 <= i <= s,
            span == max_lum - min_lum,
            real_in_limit(nudge),
            real_in_limit(min_lum),
            real_in_limit(max_lum),
            g@.len() == i,
            all_with_hue(g@, hue),
            forall|j: int|
                0 <= j < i ==> #[trigger] nudge_sample(
                    nudge as int,
                    min_lum as int,
                    max_lum as int,
                    s as int,
                    j,
                    g@[j].0 as int,
                ),
        decreases s - i,
    {
        let base = if s == 1 {
            min_lum + mul_div(span, 1, 2)
        } else {
            min_lum + mul_div(span, i as u64, (s - 1) as u64)
        };
        let d = draw_in_i64(-nudge, nudge);
        let mut l = base + d;
        if l > MAX_LUM {
            l = MAX_LUM;
        }
        if l < 0 {
            l = 0;
        }
        assert(drawn_from(-nudge, nudge as int, d as int));
        assert(nudge_sample(nudge as int, min_lum as int, max_lum as int, s as int, i as int, l as int));
        g.push((l, hue));
        i = i + 1;
    }
    g
}

/// The looping-preference luminance of `hue` and its spread samples.
pub fn looping_stack(
    focus: i64,
    segments: usize,
    amount: usize,
    size: i64,
    c_min: i64,
    c_max: i64,
    hue: i64,
) -> (r: Vec<(i64, i64)>)
    requires
        -FULL_TURN < focus < FULL_TURN,
        hue_in_range(hue as int),
        real_in_limit(size),
        real_in_limit(c_min),
        real_in_limit(c_max),
    ensures
        looping_group(
            focus as int,
            segments as int,
            amount as int,
            size as int,
            c_min as int,
            c_max as int,
            hue,
            r@,
        ),
{
    let diff: u128 = if focus >= hue {
        (focus - hue) as u128
    } else {
        (hue - focus) as u128
    };
    proof {
        assert(diff * segments <= u128::MAX) by (nonlinear_arith)
            requires
                diff <= 0x1_0000_0000_0000_0000u128,
                segments <= 0xffff_ffff_ffff_ffffu64,
        ;
    }
    let loc: u128 = ((diff * segments as u128) / 360) % (2 * UNIT as u128);
    let fraction: i64 = if loc >= UNIT as u128 {
        (loc - UNIT as u128) as i64
    } else {
        (UNIT as u128 - loc) as i64
    };
    let mut lo = fraction - size;
    if lo < c_min {
        lo = c_min;
    }
    if fraction < lo {
        lo = fraction;
    }
    let mut hi = fraction + size;
    if hi > c_max {
        hi = c_max;
    }
    if fraction > hi {
        hi = fraction;
    }
    let lo = lo * 100;
    let hi = hi * 100;
    let top = fraction * 100;
    let mut g: Vec<(i64, i64)> = Vec::new();
    g.push((top, hue));
    if lo < hi {
        let mut k: usize = 0;
        while k < amount
            invariant
                0 <= k <= amount,
                lo < hi,
                g@.len() == 1 + k,
                g@[0] == (top, hue),
                top == fraction * 100,
                all_with_hue(g@, hue),
                forall|j: int| 1 <= j < g@.len() ==> lo <= (#[trigger] g@[j]).0 < hi,
            decreases amount - k,
        {
            let l = draw_in_i64(lo, hi);
            g.push((l, hue));
            k = k + 1;
        }
    }
    g
}

/// A luminance strategy with its optional clamp range.
#[derive(Debug)]
pub struct LumStrategy {
    pub kind: LumStrategyKind,
    pub min_lum: Option<ValueProperty<i64>>,
    pub max_lum: Option<ValueProperty<i64>>,
}

impl LumStrategy {
    pub open spec fn wf(&self) -> bool {
        &&& self.kind.wf()
        &&& match self.min_lum {
            Some(v) => v.wf(),
            None => true,
        }
        &&& match self.max_lum {
            Some(v) => v.wf(),
            None => true,
        }
    }

    /// `min` is a lower clamp that a call may use: drawn, or zero by default.
    pub open spec fn can_use_min(&self, min: i64) -> bool {
        match self.min_lum {
            Some(v) => v.can_yield(min),
            None => min == 0,
        }
    }

    /// `max` is an upper clamp that a call may use: drawn, or 100 by default.
    pub open spec fn can_use_max(&self, max: i64) -> bool {
        match self.max_lum {
            Some(v) => v.can_yield(max),
            None => max == MAX_LUM,
        }
    }

    /// `pairs` is a result that `attach_lums(hues)` may return.
    pub open spec fn can_attach_lums(&self, hues: Seq<i64>, pairs: Seq<(i64, i64)>) -> bool {
        exists|min: i64, max: i64, groups: Seq<Seq<(i64, i64)>>|
            self.can_use_min(min) && self.can_use_max(max) && #[trigger] self.kind.can_attach(
                hues,
                min as int,
                max as int,
                groups,
            ) && pairs == groups.flatten()
    }

    /// Attaches luminances to `hues`, returning `(luminance, hue)` pairs.
    pub fn attach_lums(&self, hues: &Vec<i64>) -> (r: Vec<(i64, i64)>)
        requires
            self.wf(),
            hues_in_limit(hues@),
        ensures
            self.can_attach_lums(hues@, r@),
    {
        let min: i64 = match &self.min_lum {
            Some(v) => v.generate(),
            None => 0,
        };
        let max: i64 = match &self.max_lum {
            Some(v) => v.generate(),
            None => MAX_LUM,
        };
        let r = self.kind.generate(hues, min, max);
        assert(self.can_use_min(min) && self.can_use_max(max));
        r
    }
}

} // verus!

verus! {

impl LumStrategyKind {
    /// `k` is the luminance strategy that `node` describes.
    pub open spec fn parsed(node: ConfigNode, k: LumStrategyKind) -> bool {
        match (text_field(node, "type"@), k) {
            (Some(t), LumStrategyKind::StackedExact { exact }) => t == "stacked-exact"@ && (field(
                node,
                "lums"@,
            ) matches Some(n) && (items_of(n) matches Some(items) && real_properties_of(
                items,
                exact@,
            ))),
            (Some(t), LumStrategyKind::Exact { exact }) => t == "exact"@ && real_field(
                node,
                "lum"@,
                exact,
            ),
            (Some(t), LumStrategyKind::Random { stacks }) => t == "random"@ && count_field_opt(
                node,
                "stacks"@,
                stacks,
            ),
            (Some(t), LumStrategyKind::StackDistributed { stacks }) => t == "distributed"@
                && count_field(node, "count"@, stacks),
            (Some(t), LumStrategyKind::StackDistributedArea { stacks, overlap }) => t
                == "distributed/area"@ && count_field(node, "count"@, stacks) && real_field(
                node,
                "overlap"@,
                overlap,
            ),
            (Some(t), LumStrategyKind::StackDistributedNudge { stacks, nudge_size }) => t
                == "distributed/nudge"@ && count_field(node, "count"@, stacks) && real_field(
                node,
                "nudge-size"@,
                nudge_size,
            ),
            (Some(t), LumStrategyKind::LoopingPreference { focus_hue, segments, spread, clamp }) => t
                == "looping-preference"@ && real_field(node, "focus-hue"@, focus_hue) && count_field(
                node,
                "segments"@,
                segments,
            ) && count_field_or(node, "spread-amnt"@, 0, spread.0) && real_field_or(
                node,
                "spread-size"@,
                DEFAULT_SPREAD_SIZE,
                spread.1,
            ) && real_field_or(node, "clamp-min"@, 0, clamp.0) && real_field_or(
                node,
                "clamp-max"@,
                MAX_LUM,
                clamp.1,
            ),
            _ => false,
        }
    }

    /// `node` describes a luminance strategy.
    pub open spec fn accepts(node: ConfigNode) -> bool {
        match text_field(node, "type"@) {
            Some(t) => if t == "stacked-exact"@ {
                field(node, "lums"@) matches Some(n) && (items_of(n) matches Some(items)
                    && all_real_properties(items))
            } else if t == "exact"@ {
                real_field_req(node, "lum"@)
            } else if t == "random"@ {
                count_field_ok(node, "stacks"@)
            } else if t == "distributed"@ {
                count_field_req(node, "count"@)
            } else if t == "distributed/area"@ {
                count_field_req(node, "count"@) && real_field_req(node, "overlap"@)
            } else if t == "distributed/nudge"@ {
                count_field_req(node, "count"@) && real_field_req(node, "nudge-size"@)
            } else if t == "looping-preference"@ {
                real_field_req(node, "focus-hue"@) && count_field_req(node, "segments"@)
                    && count_field_ok(node, "spread-amnt"@) && real_field_ok(node, "spread-size"@)
                    && real_field_ok(node, "clamp-min"@) && real_field_ok(node, "clamp-max"@)
            } else {
                false
            },
            None => false,
        }
    }

    fn parse_stacks(value: &ConfigNode) -> (r: Result<ValueProperty<usize>, ConfigError>)
        ensures
            r is Ok <==> count_field_req(*value, "count"@),
            r matches Ok(p) ==> count_field(*value, "count"@, p) && p.wf(),
    {
        count_required(value, "count")
    }

    fn parse_lum_list(value: &ConfigNode) -> (r: Result<Vec<ValueProperty<i64>>, ConfigError>)
        ensures
            r is Ok <==> (field(*value, "lums"@) matches Some(n) && (items_of(n) matches Some(items)
                && all_real_properties(items))),
            r matches Ok(ps) ==> (field(*value, "lums"@) matches Some(n) && (items_of(n) matches Some(
                items,
            ) && real_properties_of(items, ps@))),
    {
        match get(value, "lums") {
            Some(n) => real_list(n),
            None => Err(malformed_field("lums")),
        }
    }

    /// A stack of luminances under `lums`.
    pub fn parse_stacked_exact(value: &ConfigNode) -> (r: Result<LumStrategyKind, ConfigError>)
        ensures
            r is Ok <==> (field(*value, "lums"@) matches Some(n) && (items_of(n) matches Some(items)
                && all_real_properties(items))),
            r matches Ok(k) ==> (k matches LumStrategyKind::StackedExact { exact } && (field(
                *value,
                "lums"@,
            ) matches Some(n) && (items_of(n) matches Some(items) && real_properties_of(
                items,
                exact@,
            )))),
    {
        let exact = Self::parse_lum_list(value)?;
        Ok(LumStrategyKind::StackedExact { exact })
    }

    /// One luminance under `lum`.
    pub fn parse_exact(value: &ConfigNode) -> (r: Result<LumStrategyKind, ConfigError>)
        ensures
            r is Ok <==> real_field_req(*value, "lum"@),
            r matches Ok(k) ==> (k matches LumStrategyKind::Exact { exact } && real_field(
                *value,
                "lum"@,
                exact,
            ) && exact.wf()),
    {
        let exact = real_required(value, "lum")?;
        Ok(LumStrategyKind::Exact { exact })
    }

    /// Random luminances, with an optional count under `stacks`.
    pub fn parse_random(value: &ConfigNode) -> (r: Result<LumStrategyKind, ConfigError>)
        ensures
            r is Ok <==> count_field_ok(*value, "stacks"@),
            r matches Ok(k) ==> (k matches LumStrategyKind::Random { stacks } && count_field_opt(
                *value,
                "stacks"@,
                stacks,
            ) && (stacks matches Some(p) ==> p.wf())),
    {
        let stacks = parse_property_as_usize(value, "stacks")?;
        Ok(LumStrategyKind::Random { stacks })
    }

    /// Evenly spread luminances, their number under `count`.
    pub fn parse_stacked_distributed(value: &ConfigNode) -> (r: Result<LumStrategyKind, ConfigError>)
        ensures
            r is Ok <==> count_field_req(*value, "count"@),
            r matches Ok(k) ==> (k matches LumStrategyKind::StackDistributed { stacks }
                && count_field(*value, "count"@, stacks) && stacks.wf()),
    {
        let stacks = Self::parse_stacks(value)?;
        Ok(LumStrategyKind::StackDistributed { stacks })
    }

    /// Zoned luminances: `count` zones widened by `overlap`.
    pub fn parse_stacked_distributed_area(value: &ConfigNode) -> (r: Result<LumStrategyKind, ConfigError>)
        ensures
            r is Ok <==> count_field_req(*value, "count"@) && real_field_req(*value, "overlap"@),
            r matches Ok(k) ==> (k matches LumStrategyKind::StackDistributedArea { stacks, overlap }
                && count_field(*value, "count"@, stacks) && real_field(*value, "overlap"@, overlap)
                && stacks.wf() && overlap.wf()),
    {
        let stacks = Self::parse_stacks(value)?;
        let overlap = real_required(value, "overlap")?;
        Ok(LumStrategyKind::StackDistributedArea { stacks, overlap })
    }

    /// Nudged luminances: `count` of them moved by up to `nudge-size`.
    pub fn parse_stacked_distributed_nudge(value: &ConfigNode) -> (r: Result<LumStrategyKind, ConfigError>)
        ensures
            r is Ok <==> count_field_req(*value, "count"@) && real_field_req(*value, "nudge-size"@),
            r matches Ok(k) ==> (k matches LumStrategyKind::StackDistributedNudge { stacks, nudge_size }
                && count_field(*value, "count"@, stacks) && real_field(
                *value,
                "nudge-size"@,
                nudge_size,
            ) && stacks.wf() && nudge_size.wf()),
    {
        let stacks = Self::parse_stacks(value)?;
        let nudge_size = real_required(value, "nudge-size")?;
        Ok(LumStrategyKind::StackDistributedNudge { stacks, nudge_size })
    }

    /// A looping preference: `focus-hue` and `segments`, with `spread-amnt`
    /// (zero), `spread-size` (ten), `clamp-min` (zero) and `clamp-max`
    /// (one hundred) defaulting as given.
    pub fn parse_looping_preference(value: &ConfigNode) -> (r: Result<LumStrategyKind, ConfigError>)
        ensures
            r is Ok <==> real_field_req(*value, "focus-hue"@) && count_field_req(
                *value,
                "segments"@,
            ) && count_field_ok(*value, "spread-amnt"@) && real_field_ok(*value, "spread-size"@)
                && real_field_ok(*value, "clamp-min"@) && real_field_ok(*value, "clamp-max"@),
            r matches Ok(k) ==> (k matches LumStrategyKind::LoopingPreference {
                focus_hue,
                segments,
                spread,
                clamp,
            } && real_field(*value, "focus-hue"@, focus_hue) && count_field(
                *value,
                "segments"@,
                segments,
            ) && count_field_or(*value, "spread-amnt"@, 0, spread.0) && real_field_or(
                *value,
                "spread-size"@,
                DEFAULT_SPREAD_SIZE,
                spread.1,
            ) && real_field_or(*value, "clamp-min"@, 0, clamp.0) && real_field_or(
                *value,
                "clamp-max"@,
                MAX_LUM,
                clamp.1,
            ) && focus_hue.wf() && segments.wf() && spread.0.wf() && spread.1.wf() && clamp.0.wf()
                && clamp.1.wf()),
    {
        let focus_hue = real_required(value, "focus-hue")?;
        let segments = count_required(value, "segments")?;
        let amount = count_or(value, "spread-amnt", 0)?;
        let size = real_or(value, "spread-size", DEFAULT_SPREAD_SIZE)?;
        let c_min = real_or(value, "clamp-min", 0)?;
        let c_max = real_or(value, "clamp-max", MAX_LUM)?;
        Ok(LumStrategyKind::LoopingPreference {
            focus_hue,
            segments,
            spread: (amount, size),
            clamp: (c_min, c_max),
        })
    }

    /// The luminance strategy a node describes, by its `type`.
    pub fn from_value(value: &ConfigNode) -> (r: Result<LumStrategyKind, ConfigError>)
        ensures
            r is Ok <==> Self::accepts(*value),
            r matches Ok(k) ==> Self::parsed(*value, k) && k.wf(),
    {
        let t = match text_field_exec(value, "type") {
            Some(t) => t,
            None => return Err(malformed_field("type")),
        };
        if text_eq(t, "stacked-exact") {
            Self::parse_stacked_exact(value)
        } else if text_eq(t, "exact") {
            Self::parse_exact(value)
        } else if text_eq(t, "random") {
            Self::parse_random(value)
        } else if text_eq(t, "distributed") {
            Self::parse_stacked_distributed(value)
        } else if text_eq(t, "distributed/area") {
            Self::parse_stacked_distributed_area(value)
        } else if text_eq(t, "distributed/nudge") {
            Self::parse_stacked_distributed_nudge(value)
        } else if text_eq(t, "looping-preference") {
            Self::parse_looping_preference(value)
        } else {
            Err(malformed_field("type"))
        }
    }
}

impl LumStrategy {
    /// `s` is the luminance stage that `node` describes.
    pub open spec fn parsed(node: ConfigNode, s: LumStrategy) -> bool {
        LumStrategyKind::parsed(node, s.kind) && real_field_opt(node, "min-lum"@, s.min_lum)
            && real_field_opt(node, "max-lum"@, s.max_lum)
    }

    /// `node` describes a luminance stage.
    pub open spec fn accepts(node: ConfigNode) -> bool {
        LumStrategyKind::accepts(node) && real_field_ok(node, "min-lum"@) && real_field_ok(
            node,
            "max-lum"@,
        )
    }

    /// The luminance stage a node describes: its strategy and the optional
    /// `min-lum` and `max-lum` clamp.
    pub fn from_value(value: &ConfigNode) -> (r: Result<LumStrategy, ConfigError>)
        ensures
            r is Ok <==> Self::accepts(*value),
            r matches Ok(s) ==> Self::parsed(*value, s) && s.wf(),
    {
        let kind = LumStrategyKind::from_value(value)?;
        let min_lum = parse_property_as_f64(value, "min-lum")?;
        let max_lum = parse_property_as_f64(value, "max-lum")?;
        Ok(LumStrategy { kind, min_lum, max_lum })
    }
}

} // verus!
