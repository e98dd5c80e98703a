use vstd::prelude::*;

use crate::config::{as_real, field, get, malformed_field, real_of, ConfigError, ConfigNode};
use crate::rng::random_below;

verus! {

/// The sum of the first `k` weights of `ws`.
pub open spec fn cum_weight<V>(ws: Seq<(u64, V)>, k: int) -> int
    decreases k,
{
    if k <= 0 {
        0
    } else {
        cum_weight(ws, k - 1) + ws[k - 1].0
    }
}

/// The sum of all weights of `ws`.
pub open spec fn total_weight<V>(ws: Seq<(u64, V)>) -> int {
    cum_weight(ws, ws.len() as int)
}

/// Ratios usable for selection: at least one entry, every weight positive,
/// and the sum representable.
pub open spec fn ratios_wf<V>(ws: Seq<(u64, V)>) -> bool {
    &&& ws.len() > 0
    &&& forall|i: int| 0 <= i < ws.len() ==> (#[trigger] ws[i]).0 > 0
    &&& total_weight(ws) <= u64::MAX
}

/// `r` is the index that a cumulative scan picks for `draw`: the first entry
/// whose cumulative weight reaches the draw, or the last entry when none does.
pub open spec fn is_scan_pick<V>(ws: Seq<(u64, V)>, draw: int, r: int) -> bool {
    &&& 0 <= r < ws.len()
    &&& forall|j: int| 0 <= j < r ==> draw > #[trigger] cum_weight(ws, j + 1)
    &&& (draw <= cum_weight(ws, r + 1) || r == ws.len() - 1)
}

pub proof fn lemma_cum_weight_monotone<V>(ws: Seq<(u64, V)>, a: int, b: int)
    requires
        0 <= a <= b <= ws.len(),
    ensures
        cum_weight(ws, a) <= cum_weight(ws, b),
    decreases b - a,
{
    if a < b {
        lemma_cum_weight_monotone(ws, a, b - 1);
    }
}

pub proof fn lemma_cum_weight_strict<V>(ws: Seq<(u64, V)>, a: int, b: int)
    requires
        0 <= a < b <= ws.len(),
        forall|i: int| 0 <= i < ws.len() ==> (#[trigger] ws[i]).0 > 0,
    ensures
        cum_weight(ws, a) < cum_weight(ws, b),
    decreases b - a,
{
    assert(ws[b - 1].0 > 0);
    if a < b - 1 {
        lemma_cum_weight_strict(ws, a, b - 1);
    }
}

/// Selection is proportional to weight: with positive weights and a draw
/// uniform over `1..=total`, the scan picks entry `i` exactly for the draws in
/// `(cum(i), cum(i + 1)]`, that is for `w_i` of the `total` draws.
pub proof fn lemma_selection_proportional<V>(ws: Seq<(u64, V)>, draw: int, i: int)
    requires
        ratios_wf(ws),
        1 <= draw <= total_weight(ws),
        0 <= i < ws.len(),
    ensures
        is_scan_pick(ws, draw, i) <==> (cum_weight(ws, i) < draw <= cum_weight(ws, i + 1)),
{
    if is_scan_pick(ws, draw, i) {
        if i > 0 {
            assert(draw > cum_weight(ws, (i - 1) + 1));
        }
        lemma_cum_weight_monotone(ws, i + 1, ws.len() as int);
    }
    if cum_weight(ws, i) < draw <= cum_weight(ws, i + 1) {
        assert forall|j: int| 0 <= j < i implies draw > #[trigger] cum_weight(ws, j + 1) by {
            lemma_cum_weight_monotone(ws, j + 1, i);
        }
    }
}

/// A discrete choice among alternatives: either one fixed alternative, or a
/// list of `(weight, alternative)` pairs with weights in thousandths.
#[derive(Debug, Clone)]
pub enum Weighted<V> {
    Exact(V),
    Ratios(Vec<(u64, V)>),
}

impl<V> Weighted<V> {
    pub open spec fn wf(&self) -> bool {
        match self {
            Weighted::Exact(_) => true,
            Weighted::Ratios(ws) => ratios_wf(ws@),
        }
    }

    /// `v` is an alternative that `select` may return.
    pub open spec fn can_select(&self, v: V) -> bool {
        match self {
            Weighted::Exact(x) => v == *x,
            Weighted::Ratios(ws) => exists|i: int| 0 <= i < ws.len() && (#[trigger] ws@[i]).1 == v,
        }
    }

    /// Picks an alternative: the fixed one, or the scan's pick for a draw
    /// uniform over `1..=total`, which gives each entry a probability
    /// proportional to its weight.
    pub fn select(&self) -> (r: &V)
        requires
            self.wf(),
        ensures
            self.can_select(*r),
            match self {
                Weighted::Exact(x) => *r == *x,
                Weighted::Ratios(ws) => exists|draw: int, i: int|
                    1 <= draw <= total_weight(ws@) && #[trigger] is_scan_pick(ws@, draw, i) && *r
                        == ws@[i].1,
            },
    {
        match self {
            Weighted::Exact(v) => v,
            Weighted::Ratios(ws) => {
                let total = sum_weights(ws);
                proof {
                    lemma_cum_weight_strict(ws@, 0, ws@.len() as int);
                }
                let draw = 1 + random_below(total);
                let i = pick_index(ws, draw);
                assert(is_scan_pick(ws@, draw as int, i as int));
                &ws[i].1
            },
        }
    }
}

/// The sum of the weights.
pub fn sum_weights<V>(ws: &Vec<(u64, V)>) -> (r: u64)
    requires
        total_weight(ws@) <= u64::MAX,
    ensures
        r == total_weight(ws@),
{
    let mut acc: u64 = 0;
    let mut i: usize = 0;
    while i < ws.len()
        invariant
            0 <= i <= ws.len(),
            acc == cum_weight(ws@, i as int),
            total_weight(ws@) <= u64::MAX,
        decreases ws.len() - i,
    {
        proof {
            lemma_cum_weight_monotone(ws@, i + 1, ws@.len() as int);
        }
        acc = acc + ws[i].0;
        i = i + 1;
    }
    acc
}

/// The cumulative scan: subtracting each weight in turn from the draw, the
/// first entry that brings it to zero or below is picked; when rounding leaves
/// none picked, the last entry is.
pub fn pick_index<V>(ws: &Vec<(u64, V)>, draw: u64) -> (r: usize)
    requires
        ws.len() > 0,
        total_weight(ws@) <= u64::MAX,
    ensures
        is_scan_pick(ws@, draw as int, r as int),
{
    let mut acc: u64 = 0;
    let mut i: usize = 0;
    while i < ws.len()
        invariant
            0 <= i <= ws.len(),
            ws.len() > 0,
            acc == cum_weight(ws@, i as int),
            total_weight(ws@) <= u64::MAX,
            forall|j: int| 0 <= j < i ==> draw > #[trigger] cum_weight(ws@, j + 1),
        decreases ws.len() - i,
    {
        proof {
            lemma_cum_weight_monotone(ws@, i + 1, ws@.len() as int);
        }
        acc = acc + ws[i].0;
        if draw <= acc {
            return i;
        }
        i = i + 1;
    }
    ws.len() - 1
}

} // verus!

verus! {

/// The positive weight of a numeric node, in thousandths.
pub open spec fn weight_of(node: ConfigNode) -> Option<u64> {
    match real_of(node) {
        Some(t) => if t > 0 {
            Some(t as u64)
        } else {
            None
        },
        None => None,
    }
}

/// The ratio entry of an optional weight node.
pub open spec fn ratio_entry<V>(n: Option<ConfigNode>, v: V) -> Seq<(u64, V)> {
    match n {
        Some(w) => seq![(weight_of(w)->0, v)],
        None => Seq::empty(),
    }
}

/// Fields `k1` and `k2` are absent or positive numbers, and one is present.
pub open spec fn two_ratios_ok(value: ConfigNode, k1: Seq<char>, k2: Seq<char>) -> bool {
    &&& (field(value, k1) matches Some(n) ==> weight_of(n) is Some)
    &&& (field(value, k2) matches Some(n) ==> weight_of(n) is Some)
    &&& (field(value, k1) is Some || field(value, k2) is Some)
}

/// `w` weighs `v1` by field `k1` and `v2` by field `k2`, leaving out an
/// absent field.
pub open spec fn two_ratios_of<V>(value: ConfigNode, k1: Seq<char>, v1: V, k2: Seq<char>, v2: V, w: Weighted<V>) -> bool {
    w matches Weighted::Ratios(ws) && ws@ == ratio_entry(field(value, k1), v1) + ratio_entry(
        field(value, k2),
        v2,
    )
}

fn weight(node: &ConfigNode) -> (r: Option<u64>)
    ensures
        r == weight_of(*node),
{
    match as_real(node) {
        Some(t) => if t > 0 {
            Some(t as u64)
        } else {
            None
        },
        None => None,
    }
}

/// Weights `v1` by field `k1` and `v2` by field `k2` of a mapping node.
pub fn two_ratios<V>(value: &ConfigNode, k1: &str, v1: V, k2: &str, v2: V) -> (r: Result<Weighted<V>, ConfigError>)
    ensures
        r is Ok <==> two_ratios_ok(*value, k1@, k2@),
        r matches Ok(w) ==> two_ratios_of(*value, k1@, v1, k2@, v2, w) && w.wf(),
{
    let mut ws: Vec<(u64, V)> = Vec::new();
    match get(value, k1) {
        Some(n) => match weight(n) {
            Some(x) => ws.push((x, v1)),
            None => return Err(malformed_field(k1)),
        },
        None => {},
    }
    match get(value, k2) {
        Some(n) => match weight(n) {
            Some(x) => ws.push((x, v2)),
            None => return Err(malformed_field(k2)),
        },
        None => {},
    }
    if ws.len() == 0 {
        return Err(malformed_field(k1));
    }
    assert(ws@ =~= ratio_entry(field(*value, k1@), v1) + ratio_entry(field(*value, k2@), v2));
    proof {
        assert(forall|i: int| 0 <= i < ws@.len() ==> (#[trigger] ws@[i]).0 > 0);
        assert(forall|i: int| 0 <= i < ws@.len() ==> (#[trigger] ws@[i]).0 <= 1_000_000_000_000_000u64);
        if ws@.len() == 1 {
            assert(total_weight(ws@) == ws@[0].0) by {
                reveal_with_fuel(cum_weight, 2);
            }
        } else {
            assert(total_weight(ws@) == ws@[0].0 + ws@[1].0) by {
                reveal_with_fuel(cum_weight, 3);
            }
        }
    }
    Ok(Weighted::Ratios(ws))
}

} // verus!
