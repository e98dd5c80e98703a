use vstd::prelude::*;

use crate::config::{
    as_list, as_str, count_field, count_field_ok, count_field_or, count_field_req, count_or,
    count_required, field, first_key, first_key_exec, get, items_of, malformed_field,
    parse_property_as_f64, real_field, real_field_ok, real_field_opt, real_field_or,
    real_field_req, real_or, real_required, text_of, ConfigError, ConfigNode,
};
use crate::rng::choose_from;
use crate::text::text_eq;
use crate::value::{Chance, ValueProperty, UNIT};
use crate::weighted::{ratio_entry, two_ratios, two_ratios_of, two_ratios_ok, Weighted};

verus! {

/// The axis along which a pattern runs.
#[derive(Debug, Clone, Copy, PartialEq, Eq, Structural)]
pub enum OrientationValueKind {
    Horizontal,
    Vertical,
}

/// A fixed orientation, or weighted alternatives.
pub type OrientationKind = Weighted<OrientationValueKind>;

/// A choice of orientation, fixed or weighted.
#[derive(Debug, Clone)]
pub struct Orientation {
    pub kind: Weighted<OrientationValueKind>,
}

impl Orientation {
    /// The horizontal orientation, used where none is configured.
    pub fn default_orientation() -> (r: Orientation)
        ensures
            r.kind == Weighted::Exact(OrientationValueKind::Horizontal),
    {
        Orientation { kind: Weighted::Exact(OrientationValueKind::Horizontal) }
    }

    pub fn generate(&self) -> (r: OrientationValueKind)
        requires
            self.kind.wf(),
        ensures
            self.kind.can_select(r),
    {
        *self.kind.select()
    }
}

/// The direction of a diagonal pattern.
#[derive(Debug, Clone, Copy, PartialEq, Eq, Structural)]
pub enum DiagonalDirection {
    DownRight,
    UpRight,
}

/// A fixed diagonal direction, or weighted alternatives.
pub type DiagonalKind = Weighted<DiagonalDirection>;

/// A choice of diagonal direction, fixed or weighted.
#[derive(Debug, Clone)]
pub struct Diagonal {
    pub kind: Weighted<DiagonalDirection>,
}

impl Diagonal {
    pub fn generate(&self) -> (r: DiagonalDirection)
        requires
            self.kind.wf(),
        ensures
            self.kind.can_select(r),
    {
        *self.kind.select()
    }
}

/// How a diagonal pattern grows, with a sampleable step.
#[derive(Debug, Clone)]
pub enum IncreaseValueKind {
    Linear(ValueProperty<usize>),
    Exponential(ValueProperty<usize>),
}

/// How a diagonal pattern grows, with a concrete step.
#[derive(Debug, Clone, Copy, PartialEq, Eq, Structural)]
pub enum IncreaseValue {
    Linear(u8),
    Exponential(u8),
}

impl IncreaseValueKind {
    pub open spec fn wf(&self) -> bool {
        match self {
            IncreaseValueKind::Linear(f) => f.wf(),
            IncreaseValueKind::Exponential(f) => f.wf(),
        }
    }

    /// `v` is a value that `to_property` may return; the step is kept modulo
    /// 256.
    pub open spec fn can_yield(&self, v: IncreaseValue) -> bool {
        match (self, v) {
            (IncreaseValueKind::Linear(f), IncreaseValue::Linear(x)) => exists|n: usize|
                #[trigger] f.can_yield(n) && x == n as u8,
            (IncreaseValueKind::Exponential(f), IncreaseValue::Exponential(x)) => exists|n: usize|
                #[trigger] f.can_yield(n) && x == n as u8,
            _ => false,
        }
    }

    pub fn to_property(&self) -> (r: IncreaseValue)
        requires
            self.wf(),
        ensures
            self.can_yield(r),
    {
        match self {
            IncreaseValueKind::Linear(f) => {
                let n = f.generate();
                IncreaseValue::Linear(n as u8)
            },
            IncreaseValueKind::Exponential(f) => {
                let n = f.generate();
                IncreaseValue::Exponential(n as u8)
            },
        }
    }
}

/// A fixed growth, or weighted alternatives.
pub type IncreaseKind = Weighted<IncreaseValueKind>;

/// The growth of a diagonal pattern, chosen among alternatives behind a
/// chance gate.
#[derive(Debug, Clone)]
pub struct Increase {
    pub kind: Weighted<IncreaseValueKind>,
    pub chance: Chance,
}

impl Increase {
    pub open spec fn wf(&self) -> bool {
        &&& self.kind.wf()
        &&& self.chance.wf()
        &&& match self.kind {
            Weighted::Exact(k) => k.wf(),
            Weighted::Ratios(ws) => forall|i: int| 0 <= i < ws.len() ==> (#[trigger] ws@[i]).1.wf(),
        }
    }

    /// A linear step of one behind a gate at zero, used where none is
    /// configured.
    pub fn default_increase() -> (r: Increase)
        ensures
            r.wf(),
            r.kind == Weighted::Exact(IncreaseValueKind::Linear(ValueProperty::Fixed(1usize))),
    {
        Increase {
            kind: Weighted::Exact(IncreaseValueKind::Linear(ValueProperty::Fixed(1))),
            chance: Chance::new(ValueProperty::Fixed(0)),
        }
    }

    /// `v` is a value that `generate` may return: one of the alternatives
    /// when the chance comes up, the linear step of one when it fails.
    pub open spec fn can_yield(&self, v: IncreaseValue) -> bool {
        (v == IncreaseValue::Linear(1) && self.chance.can_roll(false)) || (self.chance.can_roll(true)
            && exists|k: IncreaseValueKind| #[trigger] self.kind.can_select(k) && k.can_yield(v))
    }

    pub fn generate(&self) -> (r: IncreaseValue)
        requires
            self.wf(),
        ensures
            self.can_yield(r),
            self.chance.is_closed() ==> r == IncreaseValue::Linear(1),
            !self.chance.can_roll(false) ==> exists|k: IncreaseValueKind|
                #[trigger] self.kind.can_select(k) && k.can_yield(r),
    {
        if !self.chance.roll() {
            return IncreaseValue::Linear(1);
        }
        let k = self.kind.select();
        proof {
            match &self.kind {
                Weighted::Exact(x) => {},
                Weighted::Ratios(ws) => {
                    let i = choose|i: int| 0 <= i < ws.len() && (#[trigger] ws@[i]).1 == *k;
                    assert(ws@[i].1.wf());
                },
            }
        }
        let r = k.to_property();
        assert(self.kind.can_select(*k) && k.can_yield(r));
        r
    }
}

/// The edges across which a pattern wraps.
#[derive(Debug, Clone, Copy, PartialEq, Eq, Structural)]
pub enum WrappingKind {
    Horizontal,
    Vertical,
    All,
    Disabled,
}

/// The wrapping modes a pattern may use, one picked per generation.
#[derive(Debug, Clone)]
pub struct Wrapping {
    pub kinds: Vec<WrappingKind>,
}

impl Wrapping {
    /// No wrapping, used where none is configured.
    pub fn default_wrapping() -> (r: Wrapping)
        ensures
            r.kinds@ == seq![WrappingKind::Disabled],
    {
        Wrapping { kinds: vec![WrappingKind::Disabled] }
    }

    /// A uniformly chosen configured mode.
    pub fn pick(&self) -> (r: WrappingKind)
        requires
            self.kinds.len() > 0,
        ensures
            self.kinds@.contains(r),
    {
        *choose_from(&self.kinds)
    }
}

/// A base pattern of ordered dithering, with concrete parameters. Sizes and
/// counts are plain integers, reals are in thousandths.
#[derive(Debug, Clone, PartialEq, Eq, Structural)]
pub enum BaseStrategy {
    Bayer(usize),
    Diamonds(usize),
    CheckeredDiamonds(usize),
    Stars,
    NewStars,
    Grid,
    Trail,
    Crisscross,
    Static,
    Wavy(OrientationValueKind),
    BootlegBayer,
    Diagonals,
    DiagonalsBig,
    DiamondGrid,
    SpeckleSquares,
    Scales,
    TrailScales,
    DiagonalsN { n: usize, direction: DiagonalDirection, increase: IncreaseValue },
    DiagonalTiles(usize),
    BouncingBowtie(usize),
    ScanLine(usize, OrientationValueKind),
    Starburst(usize),
    ShinyBowtie(usize),
    MarbleTile(usize),
    CurvePath { n: usize, amplitude: i64, promotion: i64, halt_threshold: usize },
    ZigZag {
        n: usize,
        halt_threshold: usize,
        wrapping: WrappingKind,
        magnitude_x: i64,
        magnitude_y: i64,
        promotion_x: i64,
        promotion_y: i64,
    },
    BrokenSpiral {
        n: usize,
        base_step_x: i64,
        base_step_y: i64,
        oob_threshold: usize,
        increment_by: i64,
        increment_in: usize,
    },
    ModuloSnake { n: usize, increment_by: i64, modulo: usize, iterations: usize },
}

pub open spec fn opt_wf(o: Option<ValueProperty<i64>>) -> bool {
    match o {
        Some(p) => p.wf(),
        None => true,
    }
}

/// `v` may come from the optional value `o`, or is `default` when absent.
pub open spec fn opt_yield(o: Option<ValueProperty<i64>>, default: i64, v: i64) -> bool {
    match o {
        Some(p) => p.can_yield(v),
        None => v == default,
    }
}

/// The optional value `o` generated, or `default` when absent.
pub fn generate_or(o: &Option<ValueProperty<i64>>, default: i64) -> (r: i64)
    requires
        opt_wf(*o),
    ensures
        opt_yield(*o, default, r),
{
    match o {
        Some(p) => p.generate(),
        None => default,
    }
}

/// A configured base pattern whose parameters are sampled per generation.
#[derive(Debug)]
pub enum Effect {
    Bayer { matrix_size: ValueProperty<usize> },
    Diamond { matrix_size: ValueProperty<usize> },
    CheckeredDiamonds { matrix_size: ValueProperty<usize> },
    Stars,
    NewStars,
    Grid,
    Trail,
    Crisscross,
    Static,
    Wavy { orientation: Orientation },
    BootlegBayer,
    Diagonals,
    DiagonalsBig,
    DiamondGrid,
    SpeckleSquares,
    Scales,
    TrailScales,
    DiagonalsN { matrix_size: ValueProperty<usize>, direction: Diagonal, increase: Increase },
    DiagonalTiles { matrix_size: ValueProperty<usize> },
    BouncingBowtie { matrix_size: ValueProperty<usize> },
    Scanline { matrix_size: ValueProperty<usize>, orientation: Orientation },
    Starburst { matrix_size: ValueProperty<usize> },
    ShinyBowtie { matrix_size: ValueProperty<usize> },
    MarbleTile { matrix_size: ValueProperty<usize> },
    CurvePath {
        matrix_size: ValueProperty<usize>,
        amplitude: ValueProperty<i64>,
        promotion: ValueProperty<i64>,
        halt_threshold: ValueProperty<usize>,
    },
    Zigzag {
        matrix_size: ValueProperty<usize>,
        halt_threshold: ValueProperty<usize>,
        wrapping: Wrapping,
        magnitude: (Option<ValueProperty<i64>>, Option<ValueProperty<i64>>),
        promotion: (Option<ValueProperty<i64>>, Option<ValueProperty<i64>>),
    },
    BrokenSpiral {
        matrix_size: ValueProperty<usize>,
        base_step: (Option<ValueProperty<i64>>, Option<ValueProperty<i64>>),
        oob_threshold: ValueProperty<usize>,
        increment_by: ValueProperty<i64>,
        increment_in: ValueProperty<usize>,
    },
    ModuloSnake {
        matrix_size: ValueProperty<usize>,
        increment_by: ValueProperty<i64>,
        modulo: ValueProperty<usize>,
        iterations: ValueProperty<usize>,
    },
}

impl Effect {
    pub open spec fn wf(&self) -> bool {
        match self {
            Effect::Bayer { matrix_size } => matrix_size.wf(),
            Effect::Diamond { matrix_size } => matrix_size.wf(),
            Effect::CheckeredDiamonds { matrix_size } => matrix_size.wf(),
            Effect::Wavy { orientation } => orientation.kind.wf(),
            Effect::DiagonalsN { matrix_size, direction, increase } => matrix_size.wf()
                && direction.kind.wf() && increase.wf(),
            Effect::DiagonalTiles { matrix_size } => matrix_size.wf(),
            Effect::BouncingBowtie { matrix_size } => matrix_size.wf(),
            Effect::Scanline { matrix_size, orientation } => matrix_size.wf()
                && orientation.kind.wf(),
            Effect::Starburst { matrix_size } => matrix_size.wf(),
            Effect::ShinyBowtie { matrix_size } => matrix_size.wf(),
            Effect::MarbleTile { matrix_size } => matrix_size.wf(),
            Effect::CurvePath { matrix_size, amplitude, promotion, halt_threshold } =>
                matrix_size.wf() && amplitude.wf() && promotion.wf() && halt_threshold.wf(),
            Effect::Zigzag { matrix_size, halt_threshold, wrapping, magnitude, promotion } =>
                matrix_size.wf() && halt_threshold.wf() && wrapping.kinds.len() > 0 && opt_wf(
                magnitude.0,
            ) && opt_wf(magnitude.1) && opt_wf(promotion.0) && opt_wf(promotion.1),
            Effect::BrokenSpiral {
                matrix_size,
                base_step,
                oob_threshold,
                increment_by,
                increment_in,
            } => matrix_size.wf() && opt_wf(base_step.0) && opt_wf(base_step.1)
                && oob_threshold.wf() && increment_by.wf() && increment_in.wf(),
            Effect::ModuloSnake { matrix_size, increment_by, modulo, iterations } =>
                matrix_size.wf() && increment_by.wf() && modulo.wf() && iterations.wf(),
            _ => true,
        }
    }

    /// `s` is a pattern that `generate_effect` may return: the variant that
    /// corresponds to this one, each parameter a value its property yields.
    pub open spec fn produces(&self, s: BaseStrategy) -> bool {
        match (self, s) {
            (Effect::Bayer { matrix_size }, BaseStrategy::Bayer(n)) => matrix_size.can_yield(n),
            (Effect::Diamond { matrix_size }, BaseStrategy::Diamonds(n)) => matrix_size.can_yield(n),
            (Effect::CheckeredDiamonds { matrix_size }, BaseStrategy::CheckeredDiamonds(n)) =>
                matrix_size.can_yield(n),
            (Effect::Stars, BaseStrategy::Stars) => true,
            (Effect::NewStars, BaseStrategy::NewStars) => true,
            (Effect::Grid, BaseStrategy::Grid) => true,
            (Effect::Trail, BaseStrategy::Trail) => true,
            (Effect::Crisscross, BaseStrategy::Crisscross) => true,
            (Effect::Static, BaseStrategy::Static) => true,
            (Effect::Wavy { orientation }, BaseStrategy::Wavy(o)) => orientation.kind.can_select(o),
            (Effect::BootlegBayer, BaseStrategy::BootlegBayer) => true,
            (Effect::Diagonals, BaseStrategy::Diagonals) => true,
            (Effect::DiagonalsBig, BaseStrategy::DiagonalsBig) => true,
            (Effect::DiamondGrid, BaseStrategy::DiamondGrid) => true,
            (Effect::SpeckleSquares, BaseStrategy::SpeckleSquares) => true,
            (Effect::Scales, BaseStrategy::Scales) => true,
            (Effect::TrailScales, BaseStrategy::TrailScales) => true,
            (
                Effect::DiagonalsN { matrix_size, direction, increase },
                BaseStrategy::DiagonalsN { n, direction: d, increase: i },
            ) => matrix_size.can_yield(n) && direction.kind.can_select(d) && increase.can_yield(i),
            (Effect::DiagonalTiles { matrix_size }, BaseStrategy::DiagonalTiles(n)) =>
                matrix_size.can_yield(n),
            (Effect::BouncingBowtie { matrix_size }, BaseStrategy::BouncingBowtie(n)) =>
                matrix_size.can_yield(n),
            (Effect::Scanline { matrix_size, orientation }, BaseStrategy::ScanLine(n, o)) =>
                matrix_size.can_yield(n) && orientation.kind.can_select(o),
            (Effect::Starburst { matrix_size }, BaseStrategy::Starburst(n)) => matrix_size.can_yield(n),
            (Effect::ShinyBowtie { matrix_size }, BaseStrategy::ShinyBowtie(n)) => matrix_size.can_yield(n),
            (Effect::MarbleTile { matrix_size }, BaseStrategy::MarbleTile(n)) => matrix_size.can_yield(n),
            (
                Effect::CurvePath { matrix_size, amplitude, promotion, halt_threshold },
                BaseStrategy::CurvePath { n, amplitude: a, promotion: p, halt_threshold: h },
            ) => matrix_size.can_yield(n) && amplitude.can_yield(a) && promotion.can_yield(p)
                && halt_threshold.can_yield(h),
            (
                Effect::Zigzag { matrix_size, halt_threshold, wrapping, magnitude, promotion },
                BaseStrategy::ZigZag {
                    n,
                    halt_threshold: h,
                    wrapping: w,
                    magnitude_x,
                    magnitude_y,
                    promotion_x,
                    promotion_y,
                },
            ) => matrix_size.can_yield(n) && halt_threshold.can_yield(h) && wrapping.kinds@.contains(w)
                && opt_yield(magnitude.0, UNIT, magnitude_x) && opt_yield(magnitude.1, UNIT, magnitude_y)
                && opt_yield(promotion.0, 0, promotion_x) && opt_yield(promotion.1, 0, promotion_y),
            (
                Effect::BrokenSpiral {
                    matrix_size,
                    base_step,
                    oob_threshold,
                    increment_by,
                    increment_in,
                },
                BaseStrategy::BrokenSpiral {
                    n,
                    base_step_x,
                    base_step_y,
                    oob_threshold: o,
                    increment_by: b,
                    increment_in: i,
                },
            ) => matrix_size.can_yield(n) && opt_yield(base_step.0, 0, base_step_x) && opt_yield(
                base_step.1,
                0,
                base_step_y,
            ) && oob_threshold.can_yield(o) && increment_by.can_yield(b) && increment_in.can_yield(i),
            (
                Effect::ModuloSnake { matrix_size, increment_by, modulo, iterations },
                BaseStrategy::ModuloSnake { n, increment_by: b, modulo: m, iterations: i },
            ) => matrix_size.can_yield(n) && increment_by.can_yield(b) && modulo.can_yield(m)
                && iterations.can_yield(i),
            _ => false,
        }
    }

    /// Samples every parameter of this pattern.
    pub fn generate_effect(&self) -> (r: BaseStrategy)
        requires
            self.wf(),
        ensures
            self.produces(r),
    {
        match self {
            Effect::Bayer { matrix_size } => BaseStrategy::Bayer(matrix_size.generate()),
            Effect::Diamond { matrix_size } => BaseStrategy::Diamonds(matrix_size.generate()),
            Effect::CheckeredDiamonds { matrix_size } => BaseStrategy::CheckeredDiamonds(
                matrix_size.generate(),
            ),
            Effect::Stars => BaseStrategy::Stars,
            Effect::NewStars => BaseStrategy::NewStars,
            Effect::Grid => BaseStrategy::Grid,
            Effect::Trail => BaseStrategy::Trail,
            Effect::Crisscross => BaseStrategy::Crisscross,
            Effect::Static => BaseStrategy::Static,
            Effect::Wavy { orientation } => BaseStrategy::Wavy(orientation.generate()),
            Effect::BootlegBayer => BaseStrategy::BootlegBayer,
            Effect::Diagonals => BaseStrategy::Diagonals,
            Effect::DiagonalsBig => BaseStrategy::DiagonalsBig,
            Effect::DiamondGrid => BaseStrategy::DiamondGrid,
            Effect::SpeckleSquares => BaseStrategy::SpeckleSquares,
            Effect::Scales => BaseStrategy::Scales,
            Effect::TrailScales => BaseStrategy::TrailScales,
            Effect::DiagonalsN { matrix_size, direction, increase } => {
                let n = matrix_size.generate();
                let d = direction.generate();
                let i = increase.generate();
                BaseStrategy::DiagonalsN { n, direction: d, increase: i }
            },
            Effect::DiagonalTiles { matrix_size } => BaseStrategy::DiagonalTiles(matrix_size.generate()),
            Effect::BouncingBowtie { matrix_size } => BaseStrategy::BouncingBowtie(
                matrix_size.generate(),
            ),
            Effect::Scanline { matrix_size, orientation } => {
                let n = matrix_size.generate();
                let o = orientation.generate();
                BaseStrategy::ScanLine(n, o)
            },
            Effect::Starburst { matrix_size } => BaseStrategy::Starburst(matrix_size.generate()),
            Effect::ShinyBowtie { matrix_size } => BaseStrategy::ShinyBowtie(matrix_size.generate()),
            Effect::MarbleTile { matrix_size } => BaseStrategy::MarbleTile(matrix_size.generate()),
            Effect::CurvePath { matrix_size, amplitude, promotion, halt_threshold } => {
                let n = matrix_size.generate();
                let a = amplitude.generate();
                let p = promotion.generate();
                let h = halt_threshold.generate();
                BaseStrategy::CurvePath { n, amplitude: a, promotion: p, halt_threshold: h }
            },
            Effect::Zigzag { matrix_size, halt_threshold, wrapping, magnitude, promotion } => {
                let n = matrix_size.generate();
                let h = halt_threshold.generate();
                let w = wrapping.pick();
                let mx = generate_or(&magnitude.0, UNIT);
                let my = generate_or(&magnitude.1, UNIT);
                let px = generate_or(&promotion.0, 0);
                let py = generate_or(&promotion.1, 0);
                BaseStrategy::ZigZag {
                    n,
                    halt_threshold: h,
                    wrapping: w,
                    magnitude_x: mx,
                    magnitude_y: my,
                    promotion_x: px,
                    promotion_y: py,
                }
            },
            Effect::BrokenSpiral { matrix_size, base_step, oob_threshold, increment_by, increment_in } => {
                let n = matrix_size.generate();
                let bx = generate_or(&base_step.0, 0);
                let by = generate_or(&base_step.1, 0);
                let o = oob_threshold.generate();
                let b = increment_by.generate();
                let i = increment_in.generate();
                BaseStrategy::BrokenSpiral {
                    n,
                    base_step_x: bx,
                    base_step_y: by,
                    oob_threshold: o,
                    increment_by: b,
                    increment_in: i,
                }
            },
            Effect::ModuloSnake { matrix_size, increment_by, modulo, iterations } => {
                let n = matrix_size.generate();
                let b = increment_by.generate();
                let m = modulo.generate();
                let i = iterations.generate();
                BaseStrategy::ModuloSnake { n, increment_by: b, modulo: m, iterations: i }
            },
        }
    }
}

} // verus!

verus! {

/// `o` is the orientation that the node under `orientation` describes: a
/// mapping of `horizontal` and `vertical` ratios, or one of those names.
pub open spec fn orientation_of(n: ConfigNode, o: Orientation) -> bool {
    match n {
        ConfigNode::Mapping(_) => two_ratios_of(
            n,
            "horizontal"@,
            OrientationValueKind::Horizontal,
            "vertical"@,
            OrientationValueKind::Vertical,
            o.kind,
        ),
        ConfigNode::Str(s) => if s@ == "horizontal"@ {
            o.kind == Weighted::Exact(OrientationValueKind::Horizontal)
        } else {
            s@ == "vertical"@ && o.kind == Weighted::Exact(OrientationValueKind::Vertical)
        },
        _ => false,
    }
}

/// The node under `orientation` describes an orientation.
pub open spec fn orientation_ok(n: ConfigNode) -> bool {
    match n {
        ConfigNode::Mapping(_) => two_ratios_ok(n, "horizontal"@, "vertical"@),
        ConfigNode::Str(s) => s@ == "horizontal"@ || s@ == "vertical"@,
        _ => false,
    }
}

impl Orientation {
    /// The optional orientation under field `orientation`.
    pub fn from_value(value: &ConfigNode) -> (r: Result<Option<Orientation>, ConfigError>)
        ensures
            r is Ok <==> (field(*value, "orientation"@) matches Some(n) ==> orientation_ok(n)),
            r matches Ok(o) ==> match (field(*value, "orientation"@), o) {
                (None, None) => true,
                (Some(n), Some(x)) => orientation_of(n, x) && x.kind.wf(),
                _ => false,
            },
    {
        let n = match get(value, "orientation") {
            Some(n) => n,
            None => return Ok(None),
        };
        match n {
            ConfigNode::Mapping(_) => {
                let kind = two_ratios(
                    n,
                    "horizontal",
                    OrientationValueKind::Horizontal,
                    "vertical",
                    OrientationValueKind::Vertical,
                )?;
                Ok(Some(Orientation { kind }))
            },
            ConfigNode::Str(s) => if text_eq(s.as_str(), "horizontal") {
                Ok(Some(Orientation { kind: Weighted::Exact(OrientationValueKind::Horizontal) }))
            } else if text_eq(s.as_str(), "vertical") {
                Ok(Some(Orientation { kind: Weighted::Exact(OrientationValueKind::Vertical) }))
            } else {
                Err(malformed_field("orientation"))
            },
            _ => Err(malformed_field("orientation")),
        }
    }
}

/// `d` is the diagonal direction that the node under `diagonal-direction`
/// describes: a mapping of `down-right` and `up-right` ratios, or one of
/// those names.
pub open spec fn diagonal_of(n: ConfigNode, d: Diagonal) -> bool {
    match n {
        ConfigNode::Mapping(_) => two_ratios_of(
            n,
            "down-right"@,
            DiagonalDirection::DownRight,
            "up-right"@,
            DiagonalDirection::UpRight,
            d.kind,
        ),
        ConfigNode::Str(s) => if s@ == "down-right"@ {
            d.kind == Weighted::Exact(DiagonalDirection::DownRight)
        } else {
            s@ == "up-right"@ && d.kind == Weighted::Exact(DiagonalDirection::UpRight)
        },
        _ => false,
    }
}

/// The node under `diagonal-direction` describes a direction.
pub open spec fn diagonal_ok(n: ConfigNode) -> bool {
    match n {
        ConfigNode::Mapping(_) => two_ratios_ok(n, "down-right"@, "up-right"@),
        ConfigNode::Str(s) => s@ == "down-right"@ || s@ == "up-right"@,
        _ => false,
    }
}

impl Diagonal {
    /// The direction under the required field `diagonal-direction`.
    pub fn from_value(value: &ConfigNode) -> (r: Result<Diagonal, ConfigError>)
        ensures
            r is Ok <==> (field(*value, "diagonal-direction"@) matches Some(n) && diagonal_ok(n)),
            r matches Ok(d) ==> (field(*value, "diagonal-direction"@) matches Some(n) && diagonal_of(
                n,
                d,
            )) && d.kind.wf(),
    {
        let n = match get(value, "diagonal-direction") {
            Some(n) => n,
            None => return Err(malformed_field("diagonal-direction")),
        };
        match n {
            ConfigNode::Mapping(_) => {
                let kind = two_ratios(
                    n,
                    "down-right",
                    DiagonalDirection::DownRight,
                    "up-right",
                    DiagonalDirection::UpRight,
                )?;
                Ok(Diagonal { kind })
            },
            ConfigNode::Str(s) => if text_eq(s.as_str(), "down-right") {
                Ok(Diagonal { kind: Weighted::Exact(DiagonalDirection::DownRight) })
            } else if text_eq(s.as_str(), "up-right") {
                Ok(Diagonal { kind: Weighted::Exact(DiagonalDirection::UpRight) })
            } else {
                Err(malformed_field("diagonal-direction"))
            },
            _ => Err(malformed_field("diagonal-direction")),
        }
    }
}

/// `i` is the growth that the node under `increase` describes: a required
/// `chance` and `factor`, and a `type` that is a mapping of `linear` and
/// `exponential` ratios or one of those names.
pub open spec fn increase_of(n: ConfigNode, i: Increase) -> bool {
    &&& real_field(n, "chance"@, i.chance.value)
    &&& field(n, "type"@) matches Some(t) && match t {
        ConfigNode::Mapping(_) => match i.kind {
            Weighted::Ratios(ws) => exists|f1: ValueProperty<usize>, f2: ValueProperty<usize>|
                #![trigger count_field(n, "factor"@, f1), count_field(n, "factor"@, f2)]
                count_field(n, "factor"@, f1) && count_field(n, "factor"@, f2) && ws@ == ratio_entry(
                    field(t, "linear"@),
                    IncreaseValueKind::Linear(f1),
                ) + ratio_entry(field(t, "exponential"@), IncreaseValueKind::Exponential(f2)),
            _ => false,
        },
        ConfigNode::Str(s) => match i.kind {
            Weighted::Exact(IncreaseValueKind::Linear(f)) => s@ == "linear"@ && count_field(
                n,
                "factor"@,
                f,
            ),
            Weighted::Exact(IncreaseValueKind::Exponential(f)) => s@ == "exponential"@
                && count_field(n, "factor"@, f),
            _ => false,
        },
        _ => false,
    }
}

/// The node under `increase` describes a growth.
pub open spec fn increase_ok(n: ConfigNode) -> bool {
    &&& field(n, "type"@) is Some
    &&& real_field_req(n, "chance"@)
    &&& count_field_req(n, "factor"@)
    &&& field(n, "type"@) matches Some(t) && match t {
        ConfigNode::Mapping(_) => two_ratios_ok(t, "linear"@, "exponential"@),
        ConfigNode::Str(s) => s@ == "linear"@ || s@ == "exponential"@,
        _ => false,
    }
}

impl Increase {
    /// The optional growth under field `increase`.
    pub fn from_value(value: &ConfigNode) -> (r: Result<Option<Increase>, ConfigError>)
        ensures
            r is Ok <==> (field(*value, "increase"@) matches Some(n) ==> increase_ok(n)),
            r matches Ok(o) ==> match (field(*value, "increase"@), o) {
                (None, None) => true,
                (Some(n), Some(x)) => increase_of(n, x) && x.wf(),
                _ => false,
            },
    {
        let n = match get(value, "increase") {
            Some(n) => n,
            None => return Ok(None),
        };
        let t = match get(n, "type") {
            Some(t) => t,
            None => return Err(malformed_field("increase.type")),
        };
        let chance_value = real_required(n, "chance")?;
        let chance = Chance::new(chance_value);
        let factor = count_required(n, "factor")?;
        match t {
            ConfigNode::Mapping(_) => {
                let factor2 = count_required(n, "factor")?;
                let kind = two_ratios(
                    t,
                    "linear",
                    IncreaseValueKind::Linear(factor),
                    "exponential",
                    IncreaseValueKind::Exponential(factor2),
                )?;
                assert(count_field(*n, "factor"@, factor) && count_field(*n, "factor"@, factor2));
                Ok(Some(Increase { kind, chance }))
            },
            ConfigNode::Str(s) => if text_eq(s.as_str(), "linear") {
                Ok(Some(Increase { kind: Weighted::Exact(IncreaseValueKind::Linear(factor)), chance }))
            } else if text_eq(s.as_str(), "exponential") {
                Ok(
                    Some(
                        Increase { kind: Weighted::Exact(IncreaseValueKind::Exponential(factor)), chance },
                    ),
                )
            } else {
                Err(malformed_field("increase.type"))
            },
            _ => Err(malformed_field("increase.type")),
        }
    }
}

/// The wrapping mode a name selects.
pub open spec fn wrapping_named(t: Seq<char>) -> Option<WrappingKind> {
    if t == "horizontal"@ {
        Some(WrappingKind::Horizontal)
    } else if t == "vertical"@ {
        Some(WrappingKind::Vertical)
    } else if t == "all"@ {
        Some(WrappingKind::All)
    } else if t == "none"@ {
        Some(WrappingKind::Disabled)
    } else {
        None
    }
}

/// `kinds` are the wrapping modes that `items` name, and there is one at
/// least.
pub open spec fn wrappings_of(items: Seq<ConfigNode>, kinds: Seq<WrappingKind>) -> bool {
    items.len() > 0 && kinds.len() == items.len() && forall|i: int|
        0 <= i < items.len() ==> (text_of(#[trigger] items[i]) matches Some(t) && wrapping_named(t)
            == Some(kinds[i]))
}

/// Every node of `items` names a wrapping mode, and there is one at least.
pub open spec fn wrappings_ok(items: Seq<ConfigNode>) -> bool {
    items.len() > 0 && forall|i: int|
        0 <= i < items.len() ==> (text_of(#[trigger] items[i]) matches Some(t) && wrapping_named(t) is Some)
}

impl Wrapping {
    /// The optional wrapping modes under field `wrapping`.
    pub fn from_value(value: &ConfigNode) -> (r: Result<Option<Wrapping>, ConfigError>)
        ensures
            r is Ok <==> (field(*value, "wrapping"@) matches Some(n) ==> (items_of(n) matches Some(
                items,
            ) && wrappings_ok(items))),
            r matches Ok(o) ==> match (field(*value, "wrapping"@), o) {
                (None, None) => true,
                (Some(n), Some(w)) => items_of(n) matches Some(items) && wrappings_of(items, w.kinds@),
                _ => false,
            },
    {
        let n = match get(value, "wrapping") {
            Some(n) => n,
            None => return Ok(None),
        };
        let items = match as_list(n) {
            Some(items) => items,
            None => return Err(malformed_field("wrapping")),
        };
        if items.len() == 0 {
            return Err(malformed_field("wrapping"));
        }
        let mut kinds: Vec<WrappingKind> = Vec::new();
        let mut i: usize = 0;
        while i < items.len()
            invariant
                0 <= i <= items.len(),
                items.len() > 0,
                field(*value, "wrapping"@) == Some(*n),
                items_of(*n) == Some(items@),
                kinds@.len() == i,
                forall|j: int|
                    0 <= j < i ==> (text_of(#[trigger] items@[j]) matches Some(t) && wrapping_named(t)
                        == Some(kinds@[j])),
            decreases items.len() - i,
        {
            let k = match as_str(&items[i]) {
                Some(t) => if text_eq(t, "horizontal") {
                    WrappingKind::Horizontal
                } else if text_eq(t, "vertical") {
                    WrappingKind::Vertical
                } else if text_eq(t, "all") {
                    WrappingKind::All
                } else if text_eq(t, "none") {
                    WrappingKind::Disabled
                } else {
                    assert(!wrappings_ok(items@));
                    return Err(malformed_field("wrapping"));
                },
                None => {
                    assert(!wrappings_ok(items@));
                    return Err(malformed_field("wrapping"));
                },
            };
            kinds.push(k);
            i = i + 1;
        }
        Ok(Some(Wrapping { kinds }))
    }
}

} // verus!

verus! {

/// `p` is the optional real property under field `name` of the optional
/// mapping `n`.
pub open spec fn dims_of(
    n: Option<ConfigNode>,
    p: (Option<ValueProperty<i64>>, Option<ValueProperty<i64>>),
) -> bool {
    match n {
        Some(m) => real_field_opt(m, "x"@, p.0) && real_field_opt(m, "y"@, p.1),
        None => p.0 is None && p.1 is None,
    }
}

/// The optional mapping `n` has well-formed `x` and `y` fields.
pub open spec fn dims_ok(n: Option<ConfigNode>) -> bool {
    match n {
        Some(m) => real_field_ok(m, "x"@) && real_field_ok(m, "y"@),
        None => true,
    }
}

/// The optional `x` and `y` real properties of a mapping node.
pub fn parse_dimensions_as_f64(value: &ConfigNode) -> (r: Result<
    (Option<ValueProperty<i64>>, Option<ValueProperty<i64>>),
    ConfigError,
>)
    ensures
        r is Ok <==> dims_ok(Some(*value)),
        r matches Ok(p) ==> dims_of(Some(*value), p) && opt_wf(p.0) && opt_wf(p.1),
{
    let x = parse_property_as_f64(value, "x")?;
    let y = parse_property_as_f64(value, "y")?;
    Ok((x, y))
}

/// The optional `x` and `y` real properties under field `name`.
pub fn parse_dimensions(value: &ConfigNode, name: &str) -> (r: Result<
    (Option<ValueProperty<i64>>, Option<ValueProperty<i64>>),
    ConfigError,
>)
    ensures
        r is Ok <==> dims_ok(field(*value, name@)),
        r matches Ok(p) ==> dims_of(field(*value, name@), p) && opt_wf(p.0) && opt_wf(p.1),
{
    match get(value, name) {
        Some(m) => parse_dimensions_as_f64(m),
        None => Ok((None, None)),
    }
}

/// The required count property under `matrix-size`.
pub fn parse_matrix_size(value: &ConfigNode) -> (r: Result<ValueProperty<usize>, ConfigError>)
    ensures
        r is Ok <==> count_field_req(*value, "matrix-size"@),
        r matches Ok(p) ==> count_field(*value, "matrix-size"@, p) && p.wf(),
{
    count_required(value, "matrix-size")
}

/// The orientation under field `orientation`, horizontal when absent.
pub open spec fn orientation_or_default(body: ConfigNode, o: Orientation) -> bool {
    match field(body, "orientation"@) {
        Some(n) => orientation_of(n, o),
        None => o.kind == Weighted::Exact(OrientationValueKind::Horizontal),
    }
}

pub open spec fn orientation_field_ok(body: ConfigNode) -> bool {
    field(body, "orientation"@) matches Some(n) ==> orientation_ok(n)
}

fn orientation_or_horizontal(body: &ConfigNode) -> (r: Result<Orientation, ConfigError>)
    ensures
        r is Ok <==> orientation_field_ok(*body),
        r matches Ok(o) ==> orientation_or_default(*body, o) && o.kind.wf(),
{
    match Orientation::from_value(body)? {
        Some(o) => Ok(o),
        None => Ok(Orientation::default_orientation()),
    }
}

/// `name` names a base pattern.
pub open spec fn known_pattern(name: Seq<char>) -> bool {
    name == "bayer"@ || name == "diamond"@ || name == "checkered-diamonds"@ || name
        == "diagonal-tiles"@ || name == "bouncing-bowtie"@ || name == "starburst"@ || name
        == "shiny-bowtie"@ || name == "marble-tile"@ || name == "stars"@ || name == "new-stars"@
        || name == "grid"@ || name == "trail"@ || name == "crisscross"@ || name == "static"@ || name
        == "bootleg-bayer"@ || name == "diagonals"@ || name == "diagonals-big"@ || name
        == "diamond-grid"@ || name == "speckle-squares"@ || name == "scales"@ || name
        == "trail-scales"@ || name == "wavy"@ || name == "diagonals-n"@ || name == "scanline"@
        || name == "curve-path"@ || name == "zigzag"@ || name == "broken-spiral"@ || name
        == "modulo-snake"@
}

impl Effect {
    /// `e` is the pattern named `name` with parameters `body`.
    pub open spec fn parsed_body(name: Seq<char>, body: ConfigNode, e: Effect) -> bool {
        match e {
            Effect::Bayer { matrix_size } => name == "bayer"@ && count_field(
                body,
                "matrix-size"@,
                matrix_size,
            ),
            Effect::Diamond { matrix_size } => name == "diamond"@ && count_field(
                body,
                "matrix-size"@,
                matrix_size,
            ),
            Effect::CheckeredDiamonds { matrix_size } => name == "checkered-diamonds"@
                && count_field(body, "matrix-size"@, matrix_size),
            Effect::Stars => name == "stars"@,
            Effect::NewStars => name == "new-stars"@,
            Effect::Grid => name == "grid"@,
            Effect::Trail => name == "trail"@,
            Effect::Crisscross => name == "crisscross"@,
            Effect::Static => name == "static"@,
            Effect::Wavy { orientation } => name == "wavy"@ && orientation_or_default(
                body,
                orientation,
            ),
            Effect::BootlegBayer => name == "bootleg-bayer"@,
            Effect::Diagonals => name == "diagonals"@,
            Effect::DiagonalsBig => name == "diagonals-big"@,
            Effect::DiamondGrid => name == "diamond-grid"@,
            Effect::SpeckleSquares => name == "speckle-squares"@,
            Effect::Scales => name == "scales"@,
            Effect::TrailScales => name == "trail-scales"@,
            Effect::DiagonalsN { matrix_size, direction, increase } => name == "diagonals-n"@
                && count_field(body, "matrix-size"@, matrix_size) && (field(
                body,
                "diagonal-direction"@,
            ) matches Some(n) && diagonal_of(n, direction)) && match field(body, "increase"@) {
                Some(n) => increase_of(n, increase),
                None => increase.kind == Weighted::Exact(
                    IncreaseValueKind::Linear(ValueProperty::Fixed(1usize)),
                ),
            },
            Effect::DiagonalTiles { matrix_size } => name == "diagonal-tiles"@ && count_field(
                body,
                "matrix-size"@,
                matrix_size,
            ),
            Effect::BouncingBowtie { matrix_size } => name == "bouncing-bowtie"@ && count_field(
                body,
                "matrix-size"@,
                matrix_size,
            ),
            Effect::Scanline { matrix_size, orientation } => name == "scanline"@ && count_field(
                body,
                "matrix-size"@,
                matrix_size,
            ) && orientation_or_default(body, orientation),
            Effect::Starburst { matrix_size } => name == "starburst"@ && count_field(
                body,
                "matrix-size"@,
                matrix_size,
            ),
            Effect::ShinyBowtie { matrix_size } => name == "shiny-bowtie"@ && count_field(
                body,
                "matrix-size"@,
                matrix_size,
            ),
            Effect::MarbleTile { matrix_size } => name == "marble-tile"@ && count_field(
                body,
                "matrix-size"@,
                matrix_size,
            ),
            Effect::CurvePath { matrix_size, amplitude, promotion, halt_threshold } => name
                == "curve-path"@ && count_field(body, "matrix-size"@, matrix_size) && real_field_or(
                body,
                "amplitude"@,
                UNIT,
                amplitude,
            ) && real_field_or(body, "promotion"@, 0, promotion) && count_field(
                body,
                "halt-threshold"@,
                halt_threshold,
            ),
            Effect::Zigzag { matrix_size, halt_threshold, wrapping, magnitude, promotion } => name
                == "zigzag"@ && count_field(body, "matrix-size"@, matrix_size) && count_field(
                body,
                "halt-threshold"@,
                halt_threshold,
            ) && match field(body, "wrapping"@) {
                Some(n) => items_of(n) matches Some(items) && wrappings_of(items, wrapping.kinds@),
                None => wrapping.kinds@ == seq![WrappingKind::Disabled],
            } && dims_of(field(body, "magnitude"@), magnitude) && dims_of(
                field(body, "promotion"@),
                promotion,
            ),
            Effect::BrokenSpiral {
                matrix_size,
                base_step,
                oob_threshold,
                increment_by,
                increment_in,
            } => name == "broken-spiral"@ && count_field(body, "matrix-size"@, matrix_size)
                && dims_of(field(body, "base-step"@), base_step) && count_field_or(
                body,
                "oob-threshold"@,
                100,
                oob_threshold,
            ) && real_field_or(body, "increment-by"@, UNIT, increment_by) && count_field_or(
                body,
                "increment-in"@,
                1,
                increment_in,
            ),
            Effect::ModuloSnake { matrix_size, increment_by, modulo, iterations } => name
                == "modulo-snake"@ && count_field(body, "matrix-size"@, matrix_size) && real_field_or(
                body,
                "increment-by"@,
                UNIT,
                increment_by,
            ) && count_field_or(body, "modulo"@, 10, modulo) && count_field_or(
                body,
                "iterations"@,
                1,
                iterations,
            ),
        }
    }

    /// `body` gives the parameters the pattern named `name` needs.
    pub open spec fn accepts_body(name: Seq<char>, body: ConfigNode) -> bool {
        if name == "bayer"@ || name == "diamond"@ || name == "checkered-diamonds"@ || name
            == "diagonal-tiles"@ || name == "bouncing-bowtie"@ || name == "starburst"@ || name
            == "shiny-bowtie"@ || name == "marble-tile"@ {
            count_field_req(body, "matrix-size"@)
        } else if name == "stars"@ || name == "new-stars"@ || name == "grid"@ || name == "trail"@
            || name == "crisscross"@ || name == "static"@ || name == "bootleg-bayer"@ || name
            == "diagonals"@ || name == "diagonals-big"@ || name == "diamond-grid"@ || name
            == "speckle-squares"@ || name == "scales"@ || name == "trail-scales"@ {
            true
        } else if name == "wavy"@ {
            orientation_field_ok(body)
        } else if name == "diagonals-n"@ {
            count_field_req(body, "matrix-size"@) && (field(body, "diagonal-direction"@) matches Some(
                n,
            ) && diagonal_ok(n)) && (field(body, "increase"@) matches Some(n) ==> increase_ok(n))
        } else if name == "scanline"@ {
            count_field_req(body, "matrix-size"@) && orientation_field_ok(body)
        } else if name == "curve-path"@ {
            count_field_req(body, "matrix-size"@) && real_field_ok(body, "amplitude"@) && real_field_ok(
                body,
                "promotion"@,
            ) && count_field_req(body, "halt-threshold"@)
        } else if name == "zigzag"@ {
            count_field_req(body, "matrix-size"@) && count_field_req(body, "halt-threshold"@) && (field(
                body,
                "wrapping"@,
            ) matches Some(n) ==> (items_of(n) matches Some(items) && wrappings_ok(items))) && dims_ok(
                field(body, "magnitude"@),
            ) && dims_ok(field(body, "promotion"@))
        } else if name == "broken-spiral"@ {
            count_field_req(body, "matrix-size"@) && dims_ok(field(body, "base-step"@))
                && count_field_ok(body, "oob-threshold"@) && real_field_ok(body, "increment-by"@)
                && count_field_ok(body, "increment-in"@)
        } else if name == "modulo-snake"@ {
            count_field_req(body, "matrix-size"@) && real_field_ok(body, "increment-by"@)
                && count_field_ok(body, "modulo"@) && count_field_ok(body, "iterations"@)
        } else {
            false
        }
    }

    /// `e` is the pattern that `node`, a mapping from the pattern's name to
    /// its parameters, describes.
    pub open spec fn parsed(node: ConfigNode, e: Effect) -> bool {
        first_key(node) matches Some(name) && (field(node, name) matches Some(body) && Self::parsed_body(
            name,
            body,
            e,
        ))
    }

    /// `node` describes a pattern.
    pub open spec fn accepts(node: ConfigNode) -> bool {
        first_key(node) matches Some(name) && (field(node, name) matches Some(body) && Self::accepts_body(
            name,
            body,
        ))
    }

    /// The pattern named by the first key of `value`, with the parameters
    /// under that key.
    pub fn from_value(value: &ConfigNode) -> (r: Result<Effect, ConfigError>)
        ensures
            r is Ok <==> Self::accepts(*value),
            r matches Ok(e) ==> Self::parsed(*value, e) && e.wf(),
            (first_key(*value) matches Some(name) && !known_pattern(name)) ==> (r matches Err(e)
                && e is Malformed),
    {
        let name = match first_key_exec(value) {
            Some(name) => name,
            None => return Err(malformed_field("strategies")),
        };
        let body = match get(value, name) {
            Some(b) => b,
            None => return Err(malformed_field(name)),
        };
        if text_eq(name, "bayer") {
            Ok(Effect::Bayer { matrix_size: parse_matrix_size(body)? })
        } else if text_eq(name, "diamond") {
            Ok(Effect::Diamond { matrix_size: parse_matrix_size(body)? })
        } else if text_eq(name, "checkered-diamonds") {
            Ok(Effect::CheckeredDiamonds { matrix_size: parse_matrix_size(body)? })
        } else if text_eq(name, "diagonal-tiles") {
            Ok(Effect::DiagonalTiles { matrix_size: parse_matrix_size(body)? })
        } else if text_eq(name, "bouncing-bowtie") {
            Ok(Effect::BouncingBowtie { matrix_size: parse_matrix_size(body)? })
        } else if text_eq(name, "starburst") {
            Ok(Effect::Starburst { matrix_size: parse_matrix_size(body)? })
        } else if text_eq(name, "shiny-bowtie") {
            Ok(Effect::ShinyBowtie { matrix_size: parse_matrix_size(body)? })
        } else if text_eq(name, "marble-tile") {
            Ok(Effect::MarbleTile { matrix_size: parse_matrix_size(body)? })
        } else if text_eq(name, "stars") {
            Ok(Effect::Stars)
        } else if text_eq(name, "new-stars") {
            Ok(Effect::NewStars)
        } else if text_eq(name, "grid") {
            Ok(Effect::Grid)
        } else if text_eq(name, "trail") {
            Ok(Effect::Trail)
        } else if text_eq(name, "crisscross") {
            Ok(Effect::Crisscross)
        } else if text_eq(name, "static") {
            Ok(Effect::Static)
        } else if text_eq(name, "bootleg-bayer") {
            Ok(Effect::BootlegBayer)
        } else if text_eq(name, "diagonals") {
            Ok(Effect::Diagonals)
        } else if text_eq(name, "diagonals-big") {
            Ok(Effect::DiagonalsBig)
        } else if text_eq(name, "diamond-grid") {
            Ok(Effect::DiamondGrid)
        } else if text_eq(name, "speckle-squares") {
            Ok(Effect::SpeckleSquares)
        } else if text_eq(name, "scales") {
            Ok(Effect::Scales)
        } else if text_eq(name, "trail-scales") {
            Ok(Effect::TrailScales)
        } else if text_eq(name, "wavy") {
            Ok(Effect::Wavy { orientation: orientation_or_horizontal(body)? })
        } else if text_eq(name, "diagonals-n") {
            let matrix_size = parse_matrix_size(body)?;
            let direction = Diagonal::from_value(body)?;
            let increase = match Increase::from_value(body)? {
                Some(i) => i,
                None => Increase::default_increase(),
            };
            Ok(Effect::DiagonalsN { matrix_size, direction, increase })
        } else if text_eq(name, "scanline") {
            let matrix_size = parse_matrix_size(body)?;
            let orientation = orientation_or_horizontal(body)?;
            Ok(Effect::Scanline { matrix_size, orientation })
        } else if text_eq(name, "curve-path") {
            let matrix_size = parse_matrix_size(body)?;
            let amplitude = real_or(body, "amplitude", UNIT)?;
            let promotion = real_or(body, "promotion", 0)?;
            let halt_threshold = count_required(body, "halt-threshold")?;
            Ok(Effect::CurvePath { matrix_size, amplitude, promotion, halt_threshold })
        } else if text_eq(name, "zigzag") {
            let matrix_size = parse_matrix_size(body)?;
            let halt_threshold = count_required(body, "halt-threshold")?;
            let wrapping = match Wrapping::from_value(body)? {
                Some(w) => w,
                None => Wrapping::default_wrapping(),
            };
            let magnitude = parse_dimensions(body, "magnitude")?;
            let promotion = parse_dimensions(body, "promotion")?;
            Ok(Effect::Zigzag { matrix_size, halt_threshold, wrapping, magnitude, promotion })
        } else if text_eq(name, "broken-spiral") {
            let matrix_size = parse_matrix_size(body)?;
            let base_step = parse_dimensions(body, "base-step")?;
            let oob_threshold = count_or(body, "oob-threshold", 100)?;
            let increment_by = real_or(body, "increment-by", UNIT)?;
            let increment_in = count_or(body, "increment-in", 1)?;
            Ok(
                Effect::BrokenSpiral {
                    matrix_size,
                    base_step,
                    oob_threshold,
                    increment_by,
                    increment_in,
                },
            )
        } else if text_eq(name, "modulo-snake") {
            let matrix_size = parse_matrix_size(body)?;
            let increment_by = real_or(body, "increment-by", UNIT)?;
            let modulo = count_or(body, "modulo", 10)?;
            let iterations = count_or(body, "iterations", 1)?;
            Ok(Effect::ModuloSnake { matrix_size, increment_by, modulo, iterations })
        } else {
            Err(malformed_field(name))
        }
    }
}

} // verus!
