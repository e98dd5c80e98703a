use vstd::prelude::*;

use crate::config::{
    as_list, count_field, count_field_req, count_required, items_of, malformed_field, real_field,
    real_field_req, real_required, text_field, text_field_exec, ConfigError, ConfigNode,
};
use crate::fixed::{mul_div, scaled};
use crate::text::text_eq;
use crate::rng::draw_in_i64;
use crate::value::{hue_in_range, real_in_limit, ValueProperty, REAL_LIMIT};

verus! {

/// A full turn, in thousandths of a degree.
pub const FULL_TURN: i64 = 360_000;

/// Half a turn, in thousandths of a degree.
pub const HALF_TURN: i64 = 180_000;

/// How the hues of a neighbourhood are placed.
#[derive(Debug, Clone, Copy, PartialEq, Eq, Structural)]
pub enum HueDistribution {
    Linear,
    Random,
}

/// The `k`-th of `n` evenly spaced hues of the neighbourhood `[hue - size,
/// hue + size]`; a neighbourhood of one hue holds its centre.
pub open spec fn linear_hue(hue: int, size: int, n: int, k: int) -> int {
    if n <= 1 {
        hue
    } else {
        hue - size + scaled(2 * size, k, n - 1)
    }
}

/// `hues` is a neighbourhood of `n` hues around `hue` spanning `size` on each
/// side, placed as `dist` says.
pub open spec fn is_neighbourhood(
    hue: int,
    size: int,
    n: int,
    dist: HueDistribution,
    hues: Seq<i64>,
) -> bool {
    &&& hues.len() == n
    &&& forall|k: int|
        0 <= k < n ==> match dist {
            HueDistribution::Linear => #[trigger] hues[k] == linear_hue(hue, size, n, k),
            HueDistribution::Random => if size > 0 {
                hue - size <= hues[k] < hue + size
            } else {
                hues[k] == hue - size
            },
        }
}

/// The `count` hues spaced evenly around the circle after `seed`, the seed
/// itself excluded.
pub open spec fn cycle_hues(seed: int, count: int) -> Seq<i64> {
    Seq::new(count as nat, |k: int| (seed + ((k + 1) * FULL_TURN) / (count + 1)) as i64)
}

/// A seed or centre hue that the strategies can work with.
pub open spec fn hue_in_limit(h: int) -> bool {
    -2 * REAL_LIMIT <= h <= 2 * REAL_LIMIT
}

/// A neighbourhood of `n` hues around `hue`.
pub fn generate_hue_neighbourhood(hue: i64, size: i64, n: usize, dist: HueDistribution) -> (r: Vec<i64>)
    requires
        -3 * REAL_LIMIT <= hue <= 3 * REAL_LIMIT,
        real_in_limit(size),
    ensures
        is_neighbourhood(hue as int, size as int, n as int, dist, r@),
        forall|i: int| 0 <= i < r@.len() ==> #[trigger] hue_in_range(r@[i] as int),
{
    let mut out: Vec<i64> = Vec::new();
    let lower = hue - size;
    let upper = hue + size;
    let mut k: usize = 0;
    while k < n
        invariant
            0 <= k <= n,
            lower == hue - size,
            upper == hue + size,
            -3 * REAL_LIMIT <= hue <= 3 * REAL_LIMIT,
            real_in_limit(size),
            out@.len() == k,
            forall|j: int| 0 <= j < k ==> #[trigger] hue_in_range(out@[j] as int),
            forall|j: int|
                0 <= j < k ==> match dist {
                    HueDistribution::Linear => #[trigger] out@[j] == linear_hue(
                        hue as int,
                        size as int,
                        n as int,
                        j,
                    ),
                    HueDistribution::Random => if size > 0 {
                        hue - size <= out@[j] < hue + size
                    } else {
                        out@[j] == hue - size
                    },
                },
        decreases n - k,
    {
        let h = match dist {
            HueDistribution::Linear => {
                if n <= 1 {
                    hue
                } else {
                    lower + mul_div(2 * size, k as u64, (n - 1) as u64)
                }
            },
            HueDistribution::Random => draw_in_i64(lower, upper),
        };
        out.push(h);
        k = k + 1;
    }
    out
}

/// The cycle of `count` hues after `seed`.
pub fn cycle(seed: i64, count: usize) -> (r: Vec<i64>)
    requires
        hue_in_limit(seed as int),
    ensures
        r@ == cycle_hues(seed as int, count as int),
        forall|i: int| 0 <= i < r@.len() ==> #[trigger] hue_in_range(r@[i] as int),
{
    let mut out: Vec<i64> = Vec::new();
    let mut k: usize = 0;
    while k < count
        invariant
            0 <= k <= count,
            hue_in_limit(seed as int),
            out@ == cycle_hues(seed as int, count as int).take(k as int),
            forall|j: int| 0 <= j < k ==> #[trigger] hue_in_range(out@[j] as int),
        decreases count - k,
    {
        let step: u128 = (k as u128 + 1) * (FULL_TURN as u128) / (count as u128 + 1);
        proof {
            assert(((k + 1) * FULL_TURN) / (count + 1) <= FULL_TURN) by (nonlinear_arith)
                requires
                    k < count,
            ;
            assert(((k + 1) * FULL_TURN) / (count + 1) >= 0) by (nonlinear_arith)
                requires
                    k < count,
            ;
        }
        out.push(seed + step as i64);
        k = k + 1;
        assert(out@ =~= cycle_hues(seed as int, count as int).take(k as int));
    }
    assert(out@ =~= cycle_hues(seed as int, count as int));
    out
}

/// One way of producing hues from a seed hue.
#[derive(Debug, Clone)]
pub enum HueStrategyKind {
    /// `count` hues within `size` of the seed.
    Neighbour { size: ValueProperty<i64>, count: ValueProperty<usize>, distribution: HueDistribution },
    /// `count` hues within `size` of the hue opposite the seed.
    Contrast { size: ValueProperty<i64>, count: ValueProperty<usize>, distribution: HueDistribution },
    /// `count` hues within `size` of the hue `distance` away from the seed.
    Penpal {
        size: ValueProperty<i64>,
        count: ValueProperty<usize>,
        distribution: HueDistribution,
        distance: ValueProperty<i64>,
    },
    /// `count` hues evenly spaced around the circle, the seed excluded.
    Cycle { count: ValueProperty<usize> },
}

impl HueStrategyKind {
    pub open spec fn wf(&self) -> bool {
        match self {
            HueStrategyKind::Neighbour { size, count, .. } => size.wf() && count.wf(),
            HueStrategyKind::Contrast { size, count, .. } => size.wf() && count.wf(),
            HueStrategyKind::Penpal { size, count, distance, .. } => size.wf() && count.wf()
                && distance.wf(),
            HueStrategyKind::Cycle { count } => count.wf(),
        }
    }

    /// `hues` is a result that `execute_with_seed_hue(seed)` may return.
    pub open spec fn can_execute(&self, seed: int, hues: Seq<i64>) -> bool {
        match self {
            HueStrategyKind::Neighbour { size, count, distribution } => exists|s: i64, n: usize|
                size.can_yield(s) && count.can_yield(n) && #[trigger] is_neighbourhood(
                    seed,
                    s as int,
                    n as int,
                    *distribution,
                    hues,
                ),
            HueStrategyKind::Contrast { size, count, distribution } => exists|s: i64, n: usize|
                size.can_yield(s) && count.can_yield(n) && #[trigger] is_neighbourhood(
                    seed + HALF_TURN,
                    s as int,
                    n as int,
                    *distribution,
                    hues,
                ),
            HueStrategyKind::Penpal { size, count, distribution, distance } => exists|
                s: i64,
                n: usize,
                d: i64,
            |
                size.can_yield(s) && count.can_yield(n) && distance.can_yield(d)
                    && #[trigger] is_neighbourhood(
                    seed + d,
                    s as int,
                    n as int,
                    *distribution,
                    hues,
                ),
            HueStrategyKind::Cycle { count } => exists|n: usize|
                #[trigger] count.can_yield(n) && hues == cycle_hues(seed, n as int),
        }
    }

    /// The hues of this strategy for `seed_hue`, in thousandths of a degree
    /// and not reduced modulo a full turn.
    pub fn execute_with_seed_hue(&self, seed_hue: i64) -> (r: Vec<i64>)
        requires
            self.wf(),
            0 <= seed_hue < FULL_TURN,
        ensures
            self.can_execute(seed_hue as int, r@),
            forall|i: int| 0 <= i < r@.len() ==> #[trigger] hue_in_range(r@[i] as int),
    {
        match self {
            HueStrategyKind::Neighbour { size, count, distribution } => {
                let s = size.generate();
                let n = count.generate();
                let r = generate_hue_neighbourhood(seed_hue, s, n, *distribution);
                assert(size.can_yield(s) && count.can_yield(n) && is_neighbourhood(
                    seed_hue as int,
                    s as int,
                    n as int,
                    *distribution,
                    r@,
                ));
                r
            },
            HueStrategyKind::Contrast { size, count, distribution } => {
                let s = size.generate();
                let n = count.generate();
                let r = generate_hue_neighbourhood(seed_hue + HALF_TURN, s, n, *distribution);
                assert(size.can_yield(s) && count.can_yield(n) && is_neighbourhood(
                    seed_hue + HALF_TURN,
                    s as int,
                    n as int,
                    *distribution,
                    r@,
                ));
                r
            },
            HueStrategyKind::Penpal { size, count, distribution, distance } => {
                let d = distance.generate();
                let s = size.generate();
                let n = count.generate();
                let r = generate_hue_neighbourhood(seed_hue + d, s, n, *distribution);
                assert(size.can_yield(s) && count.can_yield(n) && distance.can_yield(d)
                    && is_neighbourhood(seed_hue + d, s as int, n as int, *distribution, r@));
                r
            },
            HueStrategyKind::Cycle { count } => {
                let n = count.generate();
                let r = cycle(seed_hue, n);
                assert(count.can_yield(n) && r@ == cycle_hues(seed_hue as int, n as int));
                r
            },
        }
    }
}

/// An ordered list of hue strategies sharing one seed hue.
#[derive(Debug, Clone)]
pub struct HueStrategies {
    pub kinds: Vec<HueStrategyKind>,
}

impl HueStrategies {
    pub open spec fn wf(&self) -> bool {
        forall|i: int| 0 <= i < self.kinds.len() ==> (#[trigger] self.kinds@[i]).wf()
    }

    /// `hues` is what the strategies produce for `seed`, one part per
    /// strategy, concatenated in order.
    pub open spec fn can_generate_from(&self, seed: int, parts: Seq<Seq<i64>>, hues: Seq<i64>) -> bool {
        &&& parts.len() == self.kinds.len()
        &&& forall|i: int|
            0 <= i < parts.len() ==> (#[trigger] self.kinds@[i]).can_execute(seed, parts[i])
        &&& hues == parts.flatten()
    }

    /// `hues` is a result that `generate_hues` may return.
    pub open spec fn can_generate(&self, hues: Seq<i64>) -> bool {
        exists|seed: int, parts: Seq<Seq<i64>>|
            0 <= seed < FULL_TURN && #[trigger] self.can_generate_from(seed, parts, hues)
    }

    /// The hues for one seed hue drawn uniformly from `[0, 360)` degrees.
    pub fn generate_hues(&self) -> (r: Vec<i64>)
        requires
            self.wf(),
        ensures
            self.can_generate(r@),
            forall|i: int| 0 <= i < r@.len() ==> #[trigger] hue_in_range(r@[i] as int),
    {
        let seed = draw_in_i64(0, FULL_TURN);
        let r = self.generate_hues_with_seed(seed);
        r
    }

    /// The hues of every strategy for `seed`, concatenated in order.
    pub fn generate_hues_with_seed(&self, seed: i64) -> (r: Vec<i64>)
        requires
            self.wf(),
            0 <= seed < FULL_TURN,
        ensures
            exists|parts: Seq<Seq<i64>>| #[trigger] self.can_generate_from(seed as int, parts, r@),
            forall|i: int| 0 <= i < r@.len() ==> #[trigger] hue_in_range(r@[i] as int),
    {
        let mut out: Vec<i64> = Vec::new();
        let ghost mut parts: Seq<Seq<i64>> = Seq::empty();
        let mut i: usize = 0;
        while i < self.kinds.len()
            invariant
                0 <= i <= self.kinds.len(),
                self.wf(),
                0 <= seed < FULL_TURN,
                parts.len() == i,
                forall|j: int|
                    0 <= j < i ==> (#[trigger] self.kinds@[j]).can_execute(seed as int, parts[j]),
                out@ == parts.flatten(),
                forall|j: int| 0 <= j < out@.len() ==> #[trigger] hue_in_range(out@[j] as int),
            decreases self.kinds.len() - i,
        {
            assert(self.kinds@[i as int].wf());
            let part = self.kinds[i].execute_with_seed_hue(seed);
            let ghost before = out@;
            let mut k: usize = 0;
            while k < part.len()
                invariant
                    0 <= k <= part.len(),
                    out@ == before + part@.take(k as int),
                    forall|j: int| 0 <= j < out@.len() ==> #[trigger] hue_in_range(out@[j] as int),
                    forall|j: int| 0 <= j < part@.len() ==> #[trigger] hue_in_range(part@[j] as int),
                decreases part.len() - k,
            {
                out.push(part[k]);
                k = k + 1;
                assert(out@ =~= before + part@.take(k as int));
            }
            proof {
                assert(part@.take(part@.len() as int) =~= part@);
                parts.lemma_flatten_push(part@);
                parts = parts.push(part@);
            }
            i = i + 1;
        }
        assert(self.can_generate_from(seed as int, parts, out@));
        out
    }
}

} // verus!

verus! {

/// The hue distribution a name selects.
pub open spec fn distribution_named(t: Seq<char>) -> Option<HueDistribution> {
    if t == "linear"@ {
        Some(HueDistribution::Linear)
    } else if t == "random"@ {
        Some(HueDistribution::Random)
    } else {
        None
    }
}

/// The hue distribution under field `distribution`.
pub open spec fn distribution_field(node: ConfigNode) -> Option<HueDistribution> {
    match text_field(node, "distribution"@) {
        Some(t) => distribution_named(t),
        None => None,
    }
}

impl HueDistribution {
    /// The distribution a name selects: `linear` or `random`.
    pub fn from_name(name: &str) -> (r: Result<HueDistribution, ConfigError>)
        ensures
            match distribution_named(name@) {
                Some(d) => r == Ok::<HueDistribution, ConfigError>(d),
                None => r matches Err(e) && e is Malformed,
            },
    {
        if text_eq(name, "linear") {
            Ok(HueDistribution::Linear)
        } else if text_eq(name, "random") {
            Ok(HueDistribution::Random)
        } else {
            Err(malformed_field("distribution"))
        }
    }
}

fn parse_distribution(value: &ConfigNode) -> (r: Result<HueDistribution, ConfigError>)
    ensures
        match distribution_field(*value) {
            Some(d) => r == Ok::<HueDistribution, ConfigError>(d),
            None => r is Err,
        },
{
    match text_field_exec(value, "distribution") {
        Some(t) => HueDistribution::from_name(t),
        None => Err(malformed_field("distribution")),
    }
}

impl HueStrategyKind {
    /// `k` is the strategy that `node` describes.
    pub open spec fn parsed(node: ConfigNode, k: HueStrategyKind) -> bool {
        match (text_field(node, "type"@), k) {
            (Some(t), HueStrategyKind::Neighbour { size, count, distribution }) => t
                == "neighbour"@ && real_field(node, "size"@, size) && count_field(
                node,
                "count"@,
                count,
            ) && distribution_field(node) == Some(distribution),
            (Some(t), HueStrategyKind::Contrast { size, count, distribution }) => t == "contrast"@
                && real_field(node, "size"@, size) && count_field(node, "count"@, count)
                && distribution_field(node) == Some(distribution),
            (Some(t), HueStrategyKind::Penpal { size, count, distribution, distance }) => t
                == "penpal"@ && real_field(node, "size"@, size) && count_field(
                node,
                "count"@,
                count,
            ) && distribution_field(node) == Some(distribution) && real_field(
                node,
                "distance"@,
                distance,
            ),
            (Some(t), HueStrategyKind::Cycle { count }) => t == "cycle"@ && count_field(
                node,
                "count"@,
                count,
            ),
            _ => false,
        }
    }

    /// `node` describes a hue strategy.
    pub open spec fn accepts(node: ConfigNode) -> bool {
        match text_field(node, "type"@) {
            Some(t) => if t == "neighbour"@ || t == "contrast"@ {
                real_field_req(node, "size"@) && count_field_req(node, "count"@) && distribution_field(
                    node,
                ) is Some
            } else if t == "penpal"@ {
                real_field_req(node, "size"@) && count_field_req(node, "count"@) && distribution_field(
                    node,
                ) is Some && real_field_req(node, "distance"@)
            } else if t == "cycle"@ {
                count_field_req(node, "count"@)
            } else {
                false
            },
            None => false,
        }
    }

    /// The fields `size`, `count` and `distribution` of a neighbourhood.
    pub open spec fn neighbourhood_fields_ok(node: ConfigNode) -> bool {
        real_field_req(node, "size"@) && count_field_req(node, "count"@) && distribution_field(
            node,
        ) is Some
    }

    /// `size`, `count` and `distribution` are the fields of `node`.
    pub open spec fn neighbourhood_fields(
        node: ConfigNode,
        size: ValueProperty<i64>,
        count: ValueProperty<usize>,
        distribution: HueDistribution,
    ) -> bool {
        real_field(node, "size"@, size) && count_field(node, "count"@, count) && distribution_field(
            node,
        ) == Some(distribution) && size.wf() && count.wf()
    }

    /// A neighbourhood of the seed hue.
    pub fn parse_neighbour(value: &ConfigNode) -> (r: Result<HueStrategyKind, ConfigError>)
        ensures
            r is Ok <==> Self::neighbourhood_fields_ok(*value),
            r matches Ok(k) ==> (k matches HueStrategyKind::Neighbour { size, count, distribution }
                && Self::neighbourhood_fields(*value, size, count, distribution)),
    {
        let size = real_required(value, "size")?;
        let count = count_required(value, "count")?;
        let distribution = parse_distribution(value)?;
        Ok(HueStrategyKind::Neighbour { size, count, distribution })
    }

    /// A neighbourhood of the hue opposite the seed.
    pub fn parse_contrast(value: &ConfigNode) -> (r: Result<HueStrategyKind, ConfigError>)
        ensures
            r is Ok <==> Self::neighbourhood_fields_ok(*value),
            r matches Ok(k) ==> (k matches HueStrategyKind::Contrast { size, count, distribution }
                && Self::neighbourhood_fields(*value, size, count, distribution)),
    {
        let size = real_required(value, "size")?;
        let count = count_required(value, "count")?;
        let distribution = parse_distribution(value)?;
        Ok(HueStrategyKind::Contrast { size, count, distribution })
    }

    /// A neighbourhood of the hue `distance` away from the seed.
    pub fn parse_penpal(value: &ConfigNode) -> (r: Result<HueStrategyKind, ConfigError>)
        ensures
            r is Ok <==> Self::neighbourhood_fields_ok(*value) && real_field_req(
                *value,
                "distance"@,
            ),
            r matches Ok(k) ==> (k matches HueStrategyKind::Penpal {
                size,
                count,
                distribution,
                distance,
            } && Self::neighbourhood_fields(*value, size, count, distribution) && real_field(
                *value,
                "distance"@,
                distance,
            ) && distance.wf()),
    {
        let size = real_required(value, "size")?;
        let count = count_required(value, "count")?;
        let distribution = parse_distribution(value)?;
        let distance = real_required(value, "distance")?;
        Ok(HueStrategyKind::Penpal { size, count, distribution, distance })
    }

    /// A cycle of `count` hues.
    pub fn parse_cycle(value: &ConfigNode) -> (r: Result<HueStrategyKind, ConfigError>)
        ensures
            r is Ok <==> count_field_req(*value, "count"@),
            r matches Ok(k) ==> (k matches HueStrategyKind::Cycle { count } && count_field(
                *value,
                "count"@,
                count,
            ) && count.wf()),
    {
        let count = count_required(value, "count")?;
        Ok(HueStrategyKind::Cycle { count })
    }

    /// The hue strategy a configuration node describes, by its `type`.
    pub fn from_value(value: &ConfigNode) -> (r: Result<HueStrategyKind, ConfigError>)
        ensures
            r is Ok <==> Self::accepts(*value),
            r matches Ok(k) ==> Self::parsed(*value, k) && k.wf(),
    {
        let t = match text_field_exec(value, "type") {
            Some(t) => t,
            None => return Err(malformed_field("type")),
        };
        if text_eq(t, "neighbour") {
            Self::parse_neighbour(value)
        } else if text_eq(t, "contrast") {
            Self::parse_contrast(value)
        } else if text_eq(t, "penpal") {
            Self::parse_penpal(value)
        } else if text_eq(t, "cycle") {
            Self::parse_cycle(value)
        } else {
            Err(malformed_field("type"))
        }
    }
}

/// Every node of `items` describes a hue strategy.
pub open spec fn all_hue_strategies(items: Seq<ConfigNode>) -> bool {
    forall|i: int| 0 <= i < items.len() ==> HueStrategyKind::accepts(#[trigger] items[i])
}

/// `kinds` are the hue strategies that `items` describe.
pub open spec fn hue_strategies_of(items: Seq<ConfigNode>, kinds: Seq<HueStrategyKind>) -> bool {
    kinds.len() == items.len() && forall|i: int|
        0 <= i < items.len() ==> HueStrategyKind::parsed(items[i], #[trigger] kinds[i])
}

impl HueStrategies {
    /// `s` is the strategy list that `node` describes.
    pub open spec fn parsed(node: ConfigNode, s: HueStrategies) -> bool {
        match items_of(node) {
            Some(items) => hue_strategies_of(items, s.kinds@),
            None => false,
        }
    }

    /// `node` is a list of hue strategies.
    pub open spec fn accepts(node: ConfigNode) -> bool {
        match items_of(node) {
            Some(items) => all_hue_strategies(items),
            None => false,
        }
    }

    /// The hue strategies of a list node, in order.
    pub fn from_value(value: &ConfigNode) -> (r: Result<HueStrategies, ConfigError>)
        ensures
            r is Ok <==> Self::accepts(*value),
            r matches Ok(s) ==> Self::parsed(*value, s) && s.wf(),
    {
        let items = match as_list(value) {
            Some(items) => items,
            None => return Err(malformed_field("hue-strategies")),
        };
        let mut kinds: Vec<HueStrategyKind> = Vec::new();
        let mut i: usize = 0;
        while i < items.len()
            invariant
                0 <= i <= items.len(),
                items_of(*value) == Some(items@),
                kinds@.len() == i,
                forall|j: int| 0 <= j < i ==> HueStrategyKind::accepts(#[trigger] items@[j]),
                forall|j: int|
                    0 <= j < i ==> HueStrategyKind::parsed(items@[j], #[trigger] kinds@[j])
                        && kinds@[j].wf(),
            decreases items.len() - i,
        {
            match HueStrategyKind::from_value(&items[i]) {
                Ok(k) => kinds.push(k),
                Err(e) => {
                    assert(!all_hue_strategies(items@));
                    return Err(e);
                },
            }
            i = i + 1;
        }
        assert(hue_strategies_of(items@, kinds@));
        Ok(HueStrategies { kinds })
    }
}

} // verus!
