use vstd::prelude::*;

use crate::config::{
    as_list, as_str, count_field, count_field_ok, count_field_opt, count_field_or,
    count_field_req, count_or, count_required, field, get, items_of, malformed_field,
    parse_property_as_usize, real_field, real_field_ok, real_field_or, real_field_req, real_or,
    real_required, text_field, text_field_exec, text_of, ConfigError, ConfigNode,
};
use crate::palette::{LchColor, Palette, PaletteConfig};
use crate::text::text_eq;
use crate::pattern::{BaseStrategy, Effect};
use crate::rng::choose_from;
use crate::value::{
    lemma_closed_chance_never_passes, lemma_open_chance_always_passes, real_in_limit, Chance,
    ValueProperty, UNIT,
};

verus! {

/// A rotation applied to a dithering pattern.
#[allow(non_camel_case_types)]
#[derive(Debug, Clone, Copy, PartialEq, Eq, Structural)]
pub enum RotationDirection {
    RIGHT,
    LEFT,
    HALF,
    NONE,
}

/// The axis of a mirror line.
#[derive(Debug, Clone, Copy, PartialEq, Eq, Structural)]
pub enum MirrorDirection {
    Downright,
    Upright,
    Vertical,
    Horizontal,
}

/// One mirror operation.
#[derive(Debug, Clone, Copy, PartialEq, Eq, Structural)]
pub struct MirrorLine {
    pub direction: MirrorDirection,
    pub flip: bool,
    pub thorough: bool,
}

/// Where a checker mask starts, with concrete coordinates.
#[derive(Debug, Clone, Copy, PartialEq, Eq, Structural)]
pub enum CheckerOrigin {
    Center,
    Fixed(usize, usize),
}

/// How a checker mask grows, with a concrete factor in thousandths.
#[derive(Debug, Clone, Copy, PartialEq, Eq, Structural)]
pub enum CheckerGrowth {
    Linear,
    Exponential(i64),
}

/// A concrete checker mask.
#[derive(Debug, Clone, Copy, PartialEq, Eq, Structural)]
pub enum CheckerType {
    Iter(usize),
    From { source: CheckerOrigin, factor: CheckerGrowth, modulo: Option<usize> },
}

/// One modifier appended to a base pattern.
#[derive(Debug, Clone, Copy, PartialEq, Eq, Structural)]
pub enum Modifier {
    Blur(usize),
    Exponentiate(i64),
    Rotate(RotationDirection),
    Checker(CheckerType),
    Invert,
    Mirror(MirrorLine),
}

/// A base pattern and the modifiers applied to it, in order.
#[derive(Debug, Clone)]
pub struct OrderedRecipe {
    pub base: BaseStrategy,
    pub modifiers: Vec<Modifier>,
}

/// `o` is an outcome of a sample behind a chance: absent when the chance can
/// fail, or present when the chance can come up and its value can be drawn.
pub open spec fn gated<T>(chance: Chance, o: Option<T>, ok: spec_fn(T) -> bool) -> bool {
    match o {
        None => chance.can_roll(false),
        Some(v) => chance.can_roll(true) && ok(v),
    }
}

/// An optional blur, behind its gate.
#[derive(Debug, Clone)]
pub struct Blur {
    pub chance: Chance,
    pub factor: ValueProperty<usize>,
}

impl Blur {
    pub open spec fn wf(&self) -> bool {
        self.chance.wf() && self.factor.wf()
    }

    pub open spec fn can_give(&self, o: Option<usize>) -> bool {
        gated(self.chance, o, |v: usize| self.factor.can_yield(v))
    }

    pub fn generate_factor(&self) -> (r: Option<usize>)
        requires
            self.wf(),
        ensures
            self.can_give(r),
    {
        if self.chance.roll() {
            Some(self.factor.generate())
        } else {
            None
        }
    }
}

/// An optional exponentiation, behind its gate.
#[derive(Debug, Clone)]
pub struct Exponentiate {
    pub chance: Chance,
    pub factor: ValueProperty<i64>,
}

impl Exponentiate {
    pub open spec fn wf(&self) -> bool {
        self.chance.wf() && self.factor.wf()
    }

    pub open spec fn can_give(&self, o: Option<i64>) -> bool {
        gated(self.chance, o, |v: i64| self.factor.can_yield(v))
    }

    pub fn generate_factor(&self) -> (r: Option<i64>)
        requires
            self.wf(),
        ensures
            self.can_give(r),
    {
        if self.chance.roll() {
            Some(self.factor.generate())
        } else {
            None
        }
    }
}

/// An optional rotation among configured directions, behind its gate.
#[derive(Debug, Clone)]
pub struct Rotation {
    pub chance: Chance,
    pub values: Vec<RotationDirection>,
}

impl Rotation {
    pub open spec fn wf(&self) -> bool {
        self.chance.wf() && self.values.len() > 0
    }

    pub open spec fn can_give(&self, o: Option<RotationDirection>) -> bool {
        gated(self.chance, o, |v: RotationDirection| self.values@.contains(v))
    }

    pub fn to_tool(&self) -> (r: Option<RotationDirection>)
        requires
            self.wf(),
        ensures
            self.can_give(r),
    {
        if !self.chance.roll() {
            None
        } else {
            Some(*choose_from(&self.values))
        }
    }
}

/// Where a configured checker mask starts.
#[derive(Debug, Clone)]
pub enum CheckerSourceKind {
    Center,
    Fixed { x: ValueProperty<usize>, y: ValueProperty<usize> },
}

#[derive(Debug, Clone)]
pub struct CheckerSource {
    pub kind: CheckerSourceKind,
}

/// How a configured checker mask grows.
#[derive(Debug, Clone)]
pub enum CheckerFactorKind {
    Linear,
    Exponential { factor: ValueProperty<i64> },
}

#[derive(Debug, Clone)]
pub struct CheckerFactor {
    pub kind: CheckerFactorKind,
}

/// A configured checker mask.
#[derive(Debug, Clone)]
pub enum CheckerKind {
    Iter(ValueProperty<usize>),
    From { source: CheckerSource, factor: CheckerFactor, modulo: Option<ValueProperty<usize>> },
}

impl CheckerKind {
    pub open spec fn wf(&self) -> bool {
        match self {
            CheckerKind::Iter(n) => n.wf(),
            CheckerKind::From { source, factor, modulo } => {
                &&& match source.kind {
                    CheckerSourceKind::Center => true,
                    CheckerSourceKind::Fixed { x, y } => x.wf() && y.wf(),
                }
                &&& match factor.kind {
                    CheckerFactorKind::Linear => true,
                    CheckerFactorKind::Exponential { factor } => factor.wf(),
                }
                &&& match modulo {
                    Some(m) => m.wf(),
                    None => true,
                }
            },
        }
    }

    pub open spec fn can_yield(&self, t: CheckerType) -> bool {
        match (self, t) {
            (CheckerKind::Iter(n), CheckerType::Iter(v)) => n.can_yield(v),
            (
                CheckerKind::From { source, factor, modulo },
                CheckerType::From { source: s, factor: f, modulo: m },
            ) => {
                &&& match (source.kind, s) {
                    (CheckerSourceKind::Center, CheckerOrigin::Center) => true,
                    (CheckerSourceKind::Fixed { x, y }, CheckerOrigin::Fixed(a, b)) => x.can_yield(a)
                        && y.can_yield(b),
                    _ => false,
                }
                &&& match (factor.kind, f) {
                    (CheckerFactorKind::Linear, CheckerGrowth::Linear) => true,
                    (CheckerFactorKind::Exponential { factor }, CheckerGrowth::Exponential(v)) =>
                        factor.can_yield(v),
                    _ => false,
                }
                &&& match (modulo, m) {
                    (None, None) => true,
                    (Some(p), Some(v)) => p.can_yield(v),
                    _ => false,
                }
            },
            _ => false,
        }
    }

    pub fn generate(&self) -> (r: CheckerType)
        requires
            self.wf(),
        ensures
            self.can_yield(r),
    {
        match self {
            CheckerKind::Iter(n) => CheckerType::Iter(n.generate()),
            CheckerKind::From { source, factor, modulo } => {
                let s = match &source.kind {
                    CheckerSourceKind::Center => CheckerOrigin::Center,
                    CheckerSourceKind::Fixed { x, y } => {
                        let a = x.generate();
                        let b = y.generate();
                        CheckerOrigin::Fixed(a, b)
                    },
                };
                let f = match &factor.kind {
                    CheckerFactorKind::Linear => CheckerGrowth::Linear,
                    CheckerFactorKind::Exponential { factor } => CheckerGrowth::Exponential(
                        factor.generate(),
                    ),
                };
                let m = match modulo {
                    None => None,
                    Some(v) => Some(v.generate()),
                };
                CheckerType::From { source: s, factor: f, modulo: m }
            },
        }
    }
}

/// An optional checker mask, behind its gate.
#[derive(Debug, Clone)]
pub struct Checker {
    pub chance: Chance,
    pub kind: CheckerKind,
}

impl Checker {
    pub open spec fn wf(&self) -> bool {
        self.chance.wf() && self.kind.wf()
    }

    pub open spec fn can_give(&self, o: Option<CheckerType>) -> bool {
        gated(self.chance, o, |t: CheckerType| self.kind.can_yield(t))
    }

    pub fn to_tool(&self) -> (r: Option<CheckerType>)
        requires
            self.wf(),
        ensures
            self.can_give(r),
    {
        if !self.chance.roll() {
            None
        } else {
            Some(self.kind.generate())
        }
    }
}

/// An optional inversion, behind its gate.
#[derive(Debug, Clone)]
pub struct Invert {
    pub chance: Chance,
}

impl Invert {
    pub fn roll(&self) -> (r: bool)
        requires
            self.chance.wf(),
        ensures
            self.chance.can_roll(r),
            self.chance.is_closed() ==> !r,
            self.chance.is_open() ==> r,
    {
        self.chance.roll()
    }
}

/// Optional mirror lines: behind its gate, one configured set of directions
/// is picked and each direction becomes a line with its own flip and
/// thoroughness rolls.
#[derive(Debug, Clone)]
pub struct Mirror {
    pub flip: Chance,
    pub thorough: Chance,
    pub chance: Chance,
    pub directions: Vec<Vec<MirrorDirection>>,
}

impl Mirror {
    pub open spec fn wf(&self) -> bool {
        self.flip.wf() && self.thorough.wf() && self.chance.wf() && self.directions.len() > 0
    }

    /// `lines` are mirror lines for the direction set `set`.
    pub open spec fn lines_for(&self, set: Seq<MirrorDirection>, lines: Seq<MirrorLine>) -> bool {
        &&& lines.len() == set.len()
        &&& forall|j: int|
            0 <= j < lines.len() ==> {
                &&& (#[trigger] lines[j]).direction == set[j]
                &&& self.flip.can_roll(lines[j].flip)
                &&& self.thorough.can_roll(lines[j].thorough)
            }
    }

    /// No lines when the chance fails; otherwise the lines for one
    /// configured set of directions.
    pub open spec fn can_give(&self, lines: Seq<MirrorLine>) -> bool {
        (lines.len() == 0 && self.chance.can_roll(false)) || (self.chance.can_roll(true) && exists|k: int|
            0 <= k < self.directions.len() && #[trigger] self.lines_for(
                self.directions@[k]@,
                lines,
            ))
    }

    pub fn generate(&self) -> (r: Vec<MirrorLine>)
        requires
            self.wf(),
        ensures
            self.can_give(r@),
    {
        if !self.chance.roll() {
            return Vec::new();
        }
        let set = choose_from(&self.directions);
        let mut lines: Vec<MirrorLine> = Vec::new();
        let mut j: usize = 0;
        while j < set.len()
            invariant
                0 <= j <= set.len(),
                self.wf(),
                lines@.len() == j,
                forall|i: int|
                    0 <= i < j ==> {
                        &&& (#[trigger] lines@[i]).direction == set@[i]
                        &&& self.flip.can_roll(lines@[i].flip)
                        &&& self.thorough.can_roll(lines@[i].thorough)
                    },
            decreases set.len() - j,
        {
            let flip = self.flip.roll();
            let thorough = self.thorough.roll();
            lines.push(MirrorLine { direction: set[j], flip, thorough });
            j = j + 1;
        }
        proof {
            let k = choose|k: int| 0 <= k < self.directions.len() && self.directions@[k] == *set;
            assert(self.lines_for(self.directions@[k]@, lines@));
        }
        lines
    }
}

/// The modifier of an optional sample, as a sequence of zero or one.
pub open spec fn opt_modifier<T>(o: Option<T>, f: spec_fn(T) -> Modifier) -> Seq<Modifier> {
    match o {
        Some(v) => seq![f(v)],
        None => Seq::empty(),
    }
}

/// The modifiers in their fixed order: blur, exponentiate, rotate, checker,
/// invert, then the mirror lines.
pub open spec fn modifier_seq(
    blur: Option<usize>,
    exponentiate: Option<i64>,
    rotation: Option<RotationDirection>,
    checker: Option<CheckerType>,
    invert: bool,
    mirror: Seq<MirrorLine>,
) -> Seq<Modifier> {
    opt_modifier(blur, |v: usize| Modifier::Blur(v)) + opt_modifier(
        exponentiate,
        |v: i64| Modifier::Exponentiate(v),
    ) + opt_modifier(rotation, |v: RotationDirection| Modifier::Rotate(v)) + opt_modifier(
        checker,
        |v: CheckerType| Modifier::Checker(v),
    ) + (if invert {
        seq![Modifier::Invert]
    } else {
        Seq::empty()
    }) + mirror.map_values(|l: MirrorLine| Modifier::Mirror(l))
}

/// When every gate passes, every modifier is appended, in the fixed order
/// blur, exponentiate, rotate, checker, invert, mirror.
pub proof fn lemma_all_modifiers_in_order(
    blur: usize,
    exponentiate: i64,
    rotation: RotationDirection,
    checker: CheckerType,
    mirror: Seq<MirrorLine>,
)
    ensures
        modifier_seq(Some(blur), Some(exponentiate), Some(rotation), Some(checker), true, mirror)
            =~= seq![
            Modifier::Blur(blur),
            Modifier::Exponentiate(exponentiate),
            Modifier::Rotate(rotation),
            Modifier::Checker(checker),
            Modifier::Invert,
        ] + mirror.map_values(|l: MirrorLine| Modifier::Mirror(l)),
{
}

/// Appends the sampled modifiers to `base` in the fixed order.
pub fn assemble(
    base: BaseStrategy,
    blur: Option<usize>,
    exponentiate: Option<i64>,
    rotation: Option<RotationDirection>,
    checker: Option<CheckerType>,
    invert: bool,
    mirror: Vec<MirrorLine>,
) -> (r: OrderedRecipe)
    ensures
        r.base == base,
        r.modifiers@ == modifier_seq(blur, exponentiate, rotation, checker, invert, mirror@),
{
    let mut m: Vec<Modifier> = Vec::new();
    if let Some(b) = blur {
        m.push(Modifier::Blur(b));
    }
    if let Some(e) = exponentiate {
        m.push(Modifier::Exponentiate(e));
    }
    if let Some(r) = rotation {
        m.push(Modifier::Rotate(r));
    }
    if let Some(c) = checker {
        m.push(Modifier::Checker(c));
    }
    if invert {
        m.push(Modifier::Invert);
    }
    let ghost head = m@;
    assert(head =~= opt_modifier(blur, |v: usize| Modifier::Blur(v)) + opt_modifier(
        exponentiate,
        |v: i64| Modifier::Exponentiate(v),
    ) + opt_modifier(rotation, |v: RotationDirection| Modifier::Rotate(v)) + opt_modifier(
        checker,
        |v: CheckerType| Modifier::Checker(v),
    ) + (if invert {
        seq![Modifier::Invert]
    } else {
        Seq::empty()
    }));
    let mut j: usize = 0;
    while j < mirror.len()
        invariant
            0 <= j <= mirror.len(),
            m@ == head + mirror@.take(j as int).map_values(|l: MirrorLine| Modifier::Mirror(l)),
        decreases mirror.len() - j,
    {
        m.push(Modifier::Mirror(mirror[j]));
        j = j + 1;
        assert(m@ =~= head + mirror@.take(j as int).map_values(|l: MirrorLine| Modifier::Mirror(l)));
    }
    assert(mirror@.take(mirror@.len() as int) =~= mirror@);
    OrderedRecipe { base, modifiers: m }
}

/// Ordered dithering: a base pattern picked uniformly among the configured
/// ones, the optional modifiers, and a palette.
#[derive(Debug)]
pub struct Ordered {
    pub strategies: Vec<Effect>,
    pub blur: Option<Blur>,
    pub exponentiate: Option<Exponentiate>,
    pub rotation: Option<Rotation>,
    pub checker: Option<Checker>,
    pub invert: Option<Invert>,
    pub mirror: Option<Mirror>,
    pub palette: Palette,
}

impl Ordered {
    pub open spec fn wf(&self) -> bool {
        &&& self.strategies.len() > 0
        &&& forall|i: int| 0 <= i < self.strategies.len() ==> (#[trigger] self.strategies@[i]).wf()
        &&& match self.blur {
            Some(b) => b.wf(),
            None => true,
        }
        &&& match self.exponentiate {
            Some(e) => e.wf(),
            None => true,
        }
        &&& match self.rotation {
            Some(r) => r.wf(),
            None => true,
        }
        &&& match self.checker {
            Some(c) => c.wf(),
            None => true,
        }
        &&& match self.invert {
            Some(i) => i.chance.wf(),
            None => true,
        }
        &&& match self.mirror {
            Some(m) => m.wf(),
            None => true,
        }
        &&& self.palette.wf()
    }

    /// Every configured modifier's gate is closed.
    pub open spec fn all_gates_closed(&self) -> bool {
        &&& match self.blur {
            Some(b) => b.chance.is_closed(),
            None => true,
        }
        &&& match self.exponentiate {
            Some(e) => e.chance.is_closed(),
            None => true,
        }
        &&& match self.rotation {
            Some(r) => r.chance.is_closed(),
            None => true,
        }
        &&& match self.checker {
            Some(c) => c.chance.is_closed(),
            None => true,
        }
        &&& match self.invert {
            Some(i) => i.chance.is_closed(),
            None => true,
        }
        &&& match self.mirror {
            Some(m) => m.chance.is_closed(),
            None => true,
        }
    }

    /// Every modifier is configured and its gate is open.
    pub open spec fn all_gates_open(&self) -> bool {
        &&& self.blur matches Some(b) && b.chance.is_open()
        &&& self.exponentiate matches Some(e) && e.chance.is_open()
        &&& self.rotation matches Some(r) && r.chance.is_open()
        &&& self.checker matches Some(c) && c.chance.is_open()
        &&& self.invert matches Some(i) && i.chance.is_open()
        &&& self.mirror matches Some(m) && m.chance.is_open()
    }

    /// The samples may come from the configured modifiers; an absent
    /// modifier gives nothing.
    pub open spec fn samples_ok(
        &self,
        blur: Option<usize>,
        exponentiate: Option<i64>,
        rotation: Option<RotationDirection>,
        checker: Option<CheckerType>,
        invert: bool,
        mirror: Seq<MirrorLine>,
    ) -> bool {
        &&& match self.blur {
            Some(b) => b.can_give(blur),
            None => blur is None,
        }
        &&& match self.exponentiate {
            Some(e) => e.can_give(exponentiate),
            None => exponentiate is None,
        }
        &&& match self.rotation {
            Some(r) => r.can_give(rotation),
            None => rotation is None,
        }
        &&& match self.checker {
            Some(c) => c.can_give(checker),
            None => checker is None,
        }
        &&& match self.invert {
            Some(i) => i.chance.can_roll(invert),
            None => !invert,
        }
        &&& match self.mirror {
            Some(m) => m.can_give(mirror),
            None => mirror.len() == 0,
        }
    }

    /// `r` is a recipe that `generate_effect` may assemble.
    pub open spec fn can_assemble(&self, r: OrderedRecipe) -> bool {
        &&& exists|i: int|
            0 <= i < self.strategies.len() && #[trigger] self.strategies@[i].produces(r.base)
        &&& exists|
            b: Option<usize>,
            e: Option<i64>,
            rt: Option<RotationDirection>,
            c: Option<CheckerType>,
            inv: bool,
            m: Seq<MirrorLine>,
        |
            self.samples_ok(b, e, rt, c, inv, m) && r.modifiers@ == #[trigger] modifier_seq(
                b,
                e,
                rt,
                c,
                inv,
                m,
            )
    }

    /// A palette and a recipe: a uniformly picked base pattern with each
    /// modifier appended when its gate passes.
    pub fn generate_effect(&self) -> (r: (Vec<LchColor>, OrderedRecipe))
        requires
            self.wf(),
        ensures
            self.palette.can_generate(r.0@),
            self.can_assemble(r.1),
    {
        let effect = choose_from(&self.strategies);
        proof {
            let i = choose|i: int| 0 <= i < self.strategies.len() && self.strategies@[i] == *effect;
            assert(self.strategies@[i].wf());
        }
        let base = effect.generate_effect();
        let blur = match &self.blur {
            Some(b) => b.generate_factor(),
            None => None,
        };
        let exponentiate = match &self.exponentiate {
            Some(e) => e.generate_factor(),
            None => None,
        };
        let rotation = match &self.rotation {
            Some(r) => r.to_tool(),
            None => None,
        };
        let checker = match &self.checker {
            Some(c) => c.to_tool(),
            None => None,
        };
        let invert = match &self.invert {
            Some(i) => i.roll(),
            None => false,
        };
        let mirror = match &self.mirror {
            Some(m) => m.generate(),
            None => Vec::new(),
        };
        let ghost mirror_seq = mirror@;
        assert(self.samples_ok(blur, exponentiate, rotation, checker, invert, mirror_seq));
        let recipe = assemble(base, blur, exponentiate, rotation, checker, invert, mirror);
        let colors = self.palette.generate();
        (colors, recipe)
    }
}

/// With every modifier configured and its gate open, assembly appends all
/// of them, in the fixed order blur, exponentiate, rotate, checker, invert,
/// then the lines of one configured mirror set.
pub proof fn lemma_open_gates_append_all(o: &Ordered, r: OrderedRecipe)
    requires
        o.all_gates_open(),
        o.can_assemble(r),
    ensures
        exists|
            b: usize,
            e: i64,
            rt: RotationDirection,
            c: CheckerType,
            m: Seq<MirrorLine>,
        |
            #![trigger modifier_seq(Some(b), Some(e), Some(rt), Some(c), true, m)]
            o.blur->Some_0.factor.can_yield(b) && o.exponentiate->Some_0.factor.can_yield(e)
                && o.rotation->Some_0.values@.contains(rt) && o.checker->Some_0.kind.can_yield(c)
                && (exists|k: int|
                0 <= k < o.mirror->Some_0.directions.len() && #[trigger] o.mirror->Some_0.lines_for(
                    o.mirror->Some_0.directions@[k]@,
                    m,
                )) && r.modifiers@ == modifier_seq(Some(b), Some(e), Some(rt), Some(c), true, m),
{
    let (b, e, rt, c, inv, m) = choose|
        b: Option<usize>,
        e: Option<i64>,
        rt: Option<RotationDirection>,
        c: Option<CheckerType>,
        inv: bool,
        m: Seq<MirrorLine>,
    |
        o.samples_ok(b, e, rt, c, inv, m) && r.modifiers@ == #[trigger] modifier_seq(
            b,
            e,
            rt,
            c,
            inv,
            m,
        );
    lemma_open_chance_always_passes(o.blur->Some_0.chance);
    lemma_open_chance_always_passes(o.exponentiate->Some_0.chance);
    lemma_open_chance_always_passes(o.rotation->Some_0.chance);
    lemma_open_chance_always_passes(o.checker->Some_0.chance);
    lemma_open_chance_always_passes(o.invert->Some_0.chance);
    lemma_open_chance_always_passes(o.mirror->Some_0.chance);
    assert(b is Some);
    assert(e is Some);
    assert(rt is Some);
    assert(c is Some);
    assert(inv);
    assert(o.mirror->Some_0.can_give(m));
    assert(modifier_seq(
        Some(b->Some_0),
        Some(e->Some_0),
        Some(rt->Some_0),
        Some(c->Some_0),
        true,
        m,
    ) == modifier_seq(b, e, rt, c, inv, m));
}

/// With every modifier's gate closed, assembly appends no modifier at all.
pub proof fn lemma_closed_gates_append_nothing(o: &Ordered, r: OrderedRecipe)
    requires
        o.all_gates_closed(),
        o.can_assemble(r),
    ensures
        r.modifiers@.len() == 0,
{
    let (b, e, rt, c, inv, m) = choose|
        b: Option<usize>,
        e: Option<i64>,
        rt: Option<RotationDirection>,
        c: Option<CheckerType>,
        inv: bool,
        m: Seq<MirrorLine>,
    |
        o.samples_ok(b, e, rt, c, inv, m) && r.modifiers@ == #[trigger] modifier_seq(
            b,
            e,
            rt,
            c,
            inv,
            m,
        );
    match o.blur {
        Some(x) => lemma_closed_chance_never_passes(x.chance),
        None => {},
    }
    match o.exponentiate {
        Some(x) => lemma_closed_chance_never_passes(x.chance),
        None => {},
    }
    match o.rotation {
        Some(x) => lemma_closed_chance_never_passes(x.chance),
        None => {},
    }
    match o.checker {
        Some(x) => lemma_closed_chance_never_passes(x.chance),
        None => {},
    }
    match o.invert {
        Some(x) => lemma_closed_chance_never_passes(x.chance),
        None => {},
    }
    match o.mirror {
        Some(x) => lemma_closed_chance_never_passes(x.chance),
        None => {},
    }
    assert(b is None);
    assert(e is None);
    assert(rt is None);
    assert(c is None);
    assert(!inv);
    assert(m.len() == 0);
}

} // verus!

verus! {

/// The chance of a checker mask where none is configured, in thousandths.
pub const DEFAULT_CHECKER_CHANCE: i64 = 500;

/// The chance under field `chance`, or `default` when absent.
pub open spec fn chance_field(node: ConfigNode, default: i64, c: Chance) -> bool {
    real_field_or(node, "chance"@, default, c.value)
}

fn chance_or(node: &ConfigNode, default: i64) -> (r: Result<Chance, ConfigError>)
    requires
        real_in_limit(default),
    ensures
        r is Ok <==> real_field_ok(*node, "chance"@),
        r matches Ok(c) ==> chance_field(*node, default, c) && c.wf(),
{
    let v = real_or(node, "chance", default)?;
    Ok(Chance::new(v))
}

impl Invert {
    /// The optional inversion under field `invert`; its chance defaults to
    /// zero.
    pub fn from_value(value: &ConfigNode) -> (r: Result<Option<Invert>, ConfigError>)
        ensures
            r is Ok <==> (field(*value, "invert"@) matches Some(n) ==> real_field_ok(n, "chance"@)),
            r matches Ok(o) ==> match (field(*value, "invert"@), o) {
                (None, None) => true,
                (Some(n), Some(i)) => chance_field(n, 0, i.chance) && i.chance.wf(),
                _ => false,
            },
    {
        match get(value, "invert") {
            None => Ok(None),
            Some(n) => {
                let chance = chance_or(n, 0)?;
                Ok(Some(Invert { chance }))
            },
        }
    }
}

impl Exponentiate {
    /// The optional exponentiation under field `exponentiate`; chance and
    /// factor default to zero.
    pub fn from_value(value: &ConfigNode) -> (r: Result<Option<Exponentiate>, ConfigError>)
        ensures
            r is Ok <==> (field(*value, "exponentiate"@) matches Some(n) ==> real_field_ok(
                n,
                "chance"@,
            ) && real_field_ok(n, "factor"@)),
            r matches Ok(o) ==> match (field(*value, "exponentiate"@), o) {
                (None, None) => true,
                (Some(n), Some(e)) => chance_field(n, 0, e.chance) && real_field_or(
                    n,
                    "factor"@,
                    0,
                    e.factor,
                ) && e.wf(),
                _ => false,
            },
    {
        match get(value, "exponentiate") {
            None => Ok(None),
            Some(n) => {
                let chance = chance_or(n, 0)?;
                let factor = real_or(n, "factor", 0)?;
                Ok(Some(Exponentiate { chance, factor }))
            },
        }
    }
}

impl Blur {
    /// The optional blur under field `blur`; the chance defaults to zero and
    /// the factor to one.
    pub fn from_value(value: &ConfigNode) -> (r: Result<Option<Blur>, ConfigError>)
        ensures
            r is Ok <==> (field(*value, "blur"@) matches Some(n) ==> real_field_ok(n, "chance"@)
                && count_field_ok(n, "factor"@)),
            r matches Ok(o) ==> match (field(*value, "blur"@), o) {
                (None, None) => true,
                (Some(n), Some(b)) => chance_field(n, 0, b.chance) && count_field_or(
                    n,
                    "factor"@,
                    1,
                    b.factor,
                ) && b.wf(),
                _ => false,
            },
    {
        match get(value, "blur") {
            None => Ok(None),
            Some(n) => {
                let chance = chance_or(n, 0)?;
                let factor = count_or(n, "factor", 1)?;
                Ok(Some(Blur { chance, factor }))
            },
        }
    }
}

/// The rotation a name selects.
pub open spec fn rotation_named(t: Seq<char>) -> Option<RotationDirection> {
    if t == "right"@ {
        Some(RotationDirection::RIGHT)
    } else if t == "left"@ {
        Some(RotationDirection::LEFT)
    } else if t == "half"@ {
        Some(RotationDirection::HALF)
    } else if t == "none"@ {
        Some(RotationDirection::NONE)
    } else {
        None
    }
}

/// `values` are the rotations that `items` name, one at least.
pub open spec fn rotations_of(items: Seq<ConfigNode>, values: Seq<RotationDirection>) -> bool {
    items.len() > 0 && values.len() == items.len() && forall|i: int|
        0 <= i < items.len() ==> (text_of(#[trigger] items[i]) matches Some(t) && rotation_named(t)
            == Some(values[i]))
}

/// Every node of `items` names a rotation, and there is one at least.
pub open spec fn rotations_ok(items: Seq<ConfigNode>) -> bool {
    items.len() > 0 && forall|i: int|
        0 <= i < items.len() ==> (text_of(#[trigger] items[i]) matches Some(t) && rotation_named(t) is Some)
}

impl Rotation {
    /// The optional rotation under field `rotation`: its chance (zero by
    /// default) and the required list of `values`.
    pub fn from_value(value: &ConfigNode) -> (r: Result<Option<Rotation>, ConfigError>)
        ensures
            r is Ok <==> (field(*value, "rotation"@) matches Some(n) ==> real_field_ok(n, "chance"@)
                && (field(n, "values"@) matches Some(v) && (items_of(v) matches Some(items)
                && rotations_ok(items)))),
            r matches Ok(o) ==> match (field(*value, "rotation"@), o) {
                (None, None) => true,
                (Some(n), Some(rot)) => chance_field(n, 0, rot.chance) && (field(n, "values"@) matches Some(
                    v,
                ) && (items_of(v) matches Some(items) && rotations_of(items, rot.values@))) && rot.wf(),
                _ => false,
            },
    {
        let n = match get(value, "rotation") {
            None => return Ok(None),
            Some(n) => n,
        };
        let chance = chance_or(n, 0)?;
        let v = match get(n, "values") {
            Some(v) => v,
            None => return Err(malformed_field("rotation.values")),
        };
        let items = match as_list(v) {
            Some(items) => items,
            None => return Err(malformed_field("rotation.values")),
        };
        if items.len() == 0 {
            return Err(malformed_field("rotation.values"));
        }
        let mut values: Vec<RotationDirection> = Vec::new();
        let mut i: usize = 0;
        while i < items.len()
            invariant
                0 <= i <= items.len(),
                items.len() > 0,
                field(*value, "rotation"@) == Some(*n),
                field(*n, "values"@) == Some(*v),
                items_of(*v) == Some(items@),
                values@.len() == i,
                forall|j: int|
                    0 <= j < i ==> (text_of(#[trigger] items@[j]) matches Some(t) && rotation_named(t)
                        == Some(values@[j])),
            decreases items.len() - i,
        {
            let d = match as_str(&items[i]) {
                Some(t) => if text_eq(t, "right") {
                    RotationDirection::RIGHT
                } else if text_eq(t, "left") {
                    RotationDirection::LEFT
                } else if text_eq(t, "half") {
                    RotationDirection::HALF
                } else if text_eq(t, "none") {
                    RotationDirection::NONE
                } else {
                    assert(!rotations_ok(items@));
                    return Err(malformed_field("rotation.values"));
                },
                None => {
                    assert(!rotations_ok(items@));
                    return Err(malformed_field("rotation.values"));
                },
            };
            values.push(d);
            i = i + 1;
        }
        Ok(Some(Rotation { chance, values }))
    }
}

/// `s` is the checker origin under field `source`: `center`, or `fixed`
/// with `x` and `y` under `fixed`.
pub open spec fn checker_source_of(from: ConfigNode, s: CheckerSource) -> bool {
    field(from, "source"@) matches Some(n) && match (text_field(n, "type"@), s.kind) {
        (Some(t), CheckerSourceKind::Center) => t == "center"@,
        (Some(t), CheckerSourceKind::Fixed { x, y }) => t == "fixed"@ && (field(n, "fixed"@) matches Some(
            f,
        ) && count_field(f, "x"@, x) && count_field(f, "y"@, y)),
        _ => false,
    }
}

pub open spec fn checker_source_ok(from: ConfigNode) -> bool {
    field(from, "source"@) matches Some(n) && (text_field(n, "type"@) matches Some(t) && (t
        == "center"@ || (t == "fixed"@ && (field(n, "fixed"@) matches Some(f) && count_field_req(
        f,
        "x"@,
    ) && count_field_req(f, "y"@)))))
}

/// `f` is the checker growth under field `factor`: `linear`, or
/// `exponential` with its own `factor`.
pub open spec fn checker_factor_of(from: ConfigNode, f: CheckerFactor) -> bool {
    field(from, "factor"@) matches Some(n) && match (text_field(n, "type"@), f.kind) {
        (Some(t), CheckerFactorKind::Linear) => t == "linear"@,
        (Some(t), CheckerFactorKind::Exponential { factor }) => t == "exponential"@ && real_field(
            n,
            "factor"@,
            factor,
        ),
        _ => false,
    }
}

pub open spec fn checker_factor_ok(from: ConfigNode) -> bool {
    field(from, "factor"@) matches Some(n) && (text_field(n, "type"@) matches Some(t) && (t
        == "linear"@ || (t == "exponential"@ && real_field_req(n, "factor"@))))
}

/// `k` is the checker mask that `node` describes by its `type`.
pub open spec fn checker_kind_of(node: ConfigNode, k: CheckerKind) -> bool {
    match (text_field(node, "type"@), k) {
        (Some(t), CheckerKind::Iter(n)) => t == "iter"@ && count_field(node, "iter"@, n),
        (Some(t), CheckerKind::From { source, factor, modulo }) => t == "from"@ && (field(
            node,
            "from"@,
        ) matches Some(from) && checker_source_of(from, source) && checker_factor_of(from, factor)
            && count_field_opt(from, "modulo"@, modulo)),
        _ => false,
    }
}

pub open spec fn checker_kind_ok(node: ConfigNode) -> bool {
    match text_field(node, "type"@) {
        Some(t) => if t == "iter"@ {
            count_field_req(node, "iter"@)
        } else if t == "from"@ {
            field(node, "from"@) matches Some(from) && checker_source_ok(from) && checker_factor_ok(
                from,
            ) && count_field_ok(from, "modulo"@)
        } else {
            false
        },
        None => false,
    }
}

impl Checker {
    fn parse_source(from: &ConfigNode) -> (r: Result<CheckerSource, ConfigError>)
        ensures
            r is Ok <==> checker_source_ok(*from),
            r matches Ok(s) ==> checker_source_of(*from, s) && match s.kind {
                CheckerSourceKind::Center => true,
                CheckerSourceKind::Fixed { x, y } => x.wf() && y.wf(),
            },
    {
        let n = match get(from, "source") {
            Some(n) => n,
            None => return Err(malformed_field("checker.source")),
        };
        let t = match text_field_exec(n, "type") {
            Some(t) => t,
            None => return Err(malformed_field("checker.source.type")),
        };
        if text_eq(t, "center") {
            Ok(CheckerSource { kind: CheckerSourceKind::Center })
        } else if text_eq(t, "fixed") {
            let f = match get(n, "fixed") {
                Some(f) => f,
                None => return Err(malformed_field("checker.source.fixed")),
            };
            let x = count_required(f, "x")?;
            let y = count_required(f, "y")?;
            Ok(CheckerSource { kind: CheckerSourceKind::Fixed { x, y } })
        } else {
            Err(malformed_field("checker.source.type"))
        }
    }

    fn parse_factor(from: &ConfigNode) -> (r: Result<CheckerFactor, ConfigError>)
        ensures
            r is Ok <==> checker_factor_ok(*from),
            r matches Ok(f) ==> checker_factor_of(*from, f) && match f.kind {
                CheckerFactorKind::Linear => true,
                CheckerFactorKind::Exponential { factor } => factor.wf(),
            },
    {
        let n = match get(from, "factor") {
            Some(n) => n,
            None => return Err(malformed_field("checker.factor")),
        };
        let t = match text_field_exec(n, "type") {
            Some(t) => t,
            None => return Err(malformed_field("checker.factor.type")),
        };
        if text_eq(t, "linear") {
            Ok(CheckerFactor { kind: CheckerFactorKind::Linear })
        } else if text_eq(t, "exponential") {
            let factor = real_required(n, "factor")?;
            Ok(CheckerFactor { kind: CheckerFactorKind::Exponential { factor } })
        } else {
            Err(malformed_field("checker.factor.type"))
        }
    }

    fn parse_kind(node: &ConfigNode) -> (r: Result<CheckerKind, ConfigError>)
        ensures
            r is Ok <==> checker_kind_ok(*node),
            r matches Ok(k) ==> checker_kind_of(*node, k) && k.wf(),
    {
        let t = match text_field_exec(node, "type") {
            Some(t) => t,
            None => return Err(malformed_field("checker.type")),
        };
        if text_eq(t, "iter") {
            let n = count_required(node, "iter")?;
            Ok(CheckerKind::Iter(n))
        } else if text_eq(t, "from") {
            let from = match get(node, "from") {
                Some(f) => f,
                None => return Err(malformed_field("checker.from")),
            };
            let source = Self::parse_source(from)?;
            let factor = Self::parse_factor(from)?;
            let modulo = parse_property_as_usize(from, "modulo")?;
            Ok(CheckerKind::From { source, factor, modulo })
        } else {
            Err(malformed_field("checker.type"))
        }
    }

    /// The optional checker mask under field `checker`; its chance defaults
    /// to one half.
    pub fn from_value(value: &ConfigNode) -> (r: Result<Option<Checker>, ConfigError>)
        ensures
            r is Ok <==> (field(*value, "checker"@) matches Some(n) ==> real_field_ok(n, "chance"@)
                && checker_kind_ok(n)),
            r matches Ok(o) ==> match (field(*value, "checker"@), o) {
                (None, None) => true,
                (Some(n), Some(c)) => chance_field(n, DEFAULT_CHECKER_CHANCE, c.chance) && checker_kind_of(n, c.kind)
                    && c.wf(),
                _ => false,
            },
    {
        let n = match get(value, "checker") {
            None => return Ok(None),
            Some(n) => n,
        };
        let chance = chance_or(n, DEFAULT_CHECKER_CHANCE)?;
        let kind = Self::parse_kind(n)?;
        Ok(Some(Checker { chance, kind }))
    }
}

/// The mirror axis a name selects.
pub open spec fn mirror_named(t: Seq<char>) -> Option<MirrorDirection> {
    if t == "downright"@ {
        Some(MirrorDirection::Downright)
    } else if t == "upright"@ {
        Some(MirrorDirection::Upright)
    } else if t == "horizontal"@ {
        Some(MirrorDirection::Horizontal)
    } else if t == "vertical"@ {
        Some(MirrorDirection::Vertical)
    } else {
        None
    }
}

/// `set` are the axes that the list node `n` names.
pub open spec fn mirror_set_of(n: ConfigNode, set: Seq<MirrorDirection>) -> bool {
    items_of(n) matches Some(items) && set.len() == items.len() && forall|i: int|
        0 <= i < items.len() ==> (text_of(#[trigger] items[i]) matches Some(t) && mirror_named(t)
            == Some(set[i]))
}

/// The list node `n` names axes.
pub open spec fn mirror_set_ok(n: ConfigNode) -> bool {
    items_of(n) matches Some(items) && forall|i: int|
        0 <= i < items.len() ==> (text_of(#[trigger] items[i]) matches Some(t) && mirror_named(t) is Some)
}

/// `sets` are the axis sets that `items` describe, one at least.
pub open spec fn mirror_sets_of(items: Seq<ConfigNode>, sets: Seq<Vec<MirrorDirection>>) -> bool {
    items.len() > 0 && sets.len() == items.len() && forall|i: int|
        0 <= i < items.len() ==> mirror_set_of(#[trigger] items[i], sets[i]@)
}

pub open spec fn mirror_sets_ok(items: Seq<ConfigNode>) -> bool {
    items.len() > 0 && forall|i: int| 0 <= i < items.len() ==> mirror_set_ok(#[trigger] items[i])
}

fn parse_mirror_set(n: &ConfigNode) -> (r: Result<Vec<MirrorDirection>, ConfigError>)
    ensures
        r is Ok <==> mirror_set_ok(*n),
        r matches Ok(set) ==> mirror_set_of(*n, set@),
{
    let items = match as_list(n) {
        Some(items) => items,
        None => return Err(malformed_field("mirror.directions")),
    };
    let mut set: Vec<MirrorDirection> = Vec::new();
    let mut i: usize = 0;
    while i < items.len()
        invariant
            0 <= i <= items.len(),
            items_of(*n) == Some(items@),
            set@.len() == i,
            forall|j: int|
                0 <= j < i ==> (text_of(#[trigger] items@[j]) matches Some(t) && mirror_named(t)
                    == Some(set@[j])),
        decreases items.len() - i,
    {
        let d = match as_str(&items[i]) {
            Some(t) => if text_eq(t, "downright") {
                MirrorDirection::Downright
            } else if text_eq(t, "upright") {
                MirrorDirection::Upright
            } else if text_eq(t, "horizontal") {
                MirrorDirection::Horizontal
            } else if text_eq(t, "vertical") {
                MirrorDirection::Vertical
            } else {
                assert(!(text_of(items@[i as int]) matches Some(t) && mirror_named(t) is Some));
                return Err(malformed_field("mirror.directions"));
            },
            None => {
                assert(!(text_of(items@[i as int]) matches Some(t) && mirror_named(t) is Some));
                return Err(malformed_field("mirror.directions"));
            },
        };
        set.push(d);
        i = i + 1;
    }
    Ok(set)
}

impl Mirror {
    /// The optional mirror under field `mirror`: a required non-empty list
    /// of axis sets under `directions`, and the `flip`, `thorough` and
    /// `chance` values, zero by default.
    pub fn from_value(value: &ConfigNode) -> (r: Result<Option<Mirror>, ConfigError>)
        ensures
            r is Ok <==> (field(*value, "mirror"@) matches Some(n) ==> (field(n, "directions"@) matches Some(
                d,
            ) && (items_of(d) matches Some(items) && mirror_sets_ok(items))) && real_field_ok(
                n,
                "flip"@,
            ) && real_field_ok(n, "thorough"@) && real_field_ok(n, "chance"@)),
            r matches Ok(o) ==> match (field(*value, "mirror"@), o) {
                (None, None) => true,
                (Some(n), Some(m)) => (field(n, "directions"@) matches Some(d) && (items_of(d) matches Some(
                    items,
                ) && mirror_sets_of(items, m.directions@))) && real_field_or(
                    n,
                    "flip"@,
                    0,
                    m.flip.value,
                ) && real_field_or(n, "thorough"@, 0, m.thorough.value) && real_field_or(
                    n,
                    "chance"@,
                    0,
                    m.chance.value,
                ) && m.wf(),
                _ => false,
            },
    {
        let n = match get(value, "mirror") {
            None => return Ok(None),
            Some(n) => n,
        };
        let d = match get(n, "directions") {
            Some(d) => d,
            None => return Err(malformed_field("mirror.directions")),
        };
        let items = match as_list(d) {
            Some(items) => items,
            None => return Err(malformed_field("mirror.directions")),
        };
        if items.len() == 0 {
            return Err(malformed_field("mirror.directions"));
        }
        let mut directions: Vec<Vec<MirrorDirection>> = Vec::new();
        let mut i: usize = 0;
        while i < items.len()
            invariant
                0 <= i <= items.len(),
                items.len() > 0,
                field(*value, "mirror"@) == Some(*n),
                field(*n, "directions"@) == Some(*d),
                items_of(*d) == Some(items@),
                directions@.len() == i,
                forall|j: int| 0 <= j < i ==> mirror_set_ok(#[trigger] items@[j]),
                forall|j: int| 0 <= j < i ==> mirror_set_of(#[trigger] items@[j], directions@[j]@),
            decreases items.len() - i,
        {
            match parse_mirror_set(&items[i]) {
                Ok(set) => directions.push(set),
                Err(e) => {
                    assert(!mirror_sets_ok(items@));
                    return Err(e);
                },
            }
            i = i + 1;
        }
        let flip = real_or(n, "flip", 0)?;
        let thorough = real_or(n, "thorough", 0)?;
        let chance = real_or(n, "chance", 0)?;
        assert(mirror_sets_of(items@, directions@));
        Ok(
            Some(
                Mirror {
                    flip: Chance::new(flip),
                    thorough: Chance::new(thorough),
                    chance: Chance::new(chance),
                    directions,
                },
            ),
        )
    }
}

/// Every node of `items` describes a base pattern, and there is one at
/// least.
pub open spec fn all_patterns(items: Seq<ConfigNode>) -> bool {
    items.len() > 0 && forall|i: int| 0 <= i < items.len() ==> Effect::accepts(#[trigger] items[i])
}

/// `es` are the base patterns that `items` describe.
pub open spec fn patterns_of(items: Seq<ConfigNode>, es: Seq<Effect>) -> bool {
    es.len() == items.len() && forall|i: int|
        0 <= i < items.len() ==> Effect::parsed(items[i], #[trigger] es[i])
}

impl Ordered {
    /// `node` describes ordered dithering under field `ordered`: a
    /// non-empty `strategies` list, the optional modifiers, and a palette.
    pub open spec fn accepts(node: ConfigNode) -> bool {
        field(node, "ordered"@) matches Some(o) && {
            &&& field(o, "strategies"@) matches Some(s) && (items_of(s) matches Some(items)
                && all_patterns(items))
            &&& (field(o, "blur"@) matches Some(n) ==> real_field_ok(n, "chance"@) && count_field_ok(
                n,
                "factor"@,
            ))
            &&& (field(o, "exponentiate"@) matches Some(n) ==> real_field_ok(n, "chance"@)
                && real_field_ok(n, "factor"@))
            &&& (field(o, "rotation"@) matches Some(n) ==> real_field_ok(n, "chance"@) && (field(
                n,
                "values"@,
            ) matches Some(v) && (items_of(v) matches Some(items) && rotations_ok(items))))
            &&& (field(o, "checker"@) matches Some(n) ==> real_field_ok(n, "chance"@)
                && checker_kind_ok(n))
            &&& (field(o, "invert"@) matches Some(n) ==> real_field_ok(n, "chance"@))
            &&& (field(o, "mirror"@) matches Some(n) ==> (field(n, "directions"@) matches Some(d) && (
            items_of(d) matches Some(items) && mirror_sets_ok(items))) && real_field_ok(n, "flip"@)
                && real_field_ok(n, "thorough"@) && real_field_ok(n, "chance"@))
            &&& Palette::config_node(o) matches Some(c) && PaletteConfig::accepts(c)
        }
    }

    /// Ordered dithering under field `ordered`.
    pub fn from_value(value: &ConfigNode) -> (r: Result<Ordered, ConfigError>)
        ensures
            r is Ok <==> Self::accepts(*value),
            r matches Ok(o) ==> o.wf() && (field(*value, "ordered"@) matches Some(n) && (field(
                n,
                "strategies"@,
            ) matches Some(s) && (items_of(s) matches Some(items) && patterns_of(
                items,
                o.strategies@,
            )))),
    {
        let o = match get(value, "ordered") {
            Some(o) => o,
            None => return Err(malformed_field("ordered")),
        };
        let s = match get(o, "strategies") {
            Some(s) => s,
            None => return Err(malformed_field("ordered.strategies")),
        };
        let items = match as_list(s) {
            Some(items) => items,
            None => return Err(malformed_field("ordered.strategies")),
        };
        if items.len() == 0 {
            return Err(malformed_field("ordered.strategies"));
        }
        let mut strategies: Vec<Effect> = Vec::new();
        let mut i: usize = 0;
        while i < items.len()
            invariant
                0 <= i <= items.len(),
                items.len() > 0,
                field(*value, "ordered"@) == Some(*o),
                field(*o, "strategies"@) == Some(*s),
                items_of(*s) == Some(items@),
                strategies@.len() == i,
                forall|j: int| 0 <= j < i ==> Effect::accepts(#[trigger] items@[j]),
                forall|j: int|
                    0 <= j < i ==> Effect::parsed(items@[j], #[trigger] strategies@[j])
                        && strategies@[j].wf(),
            decreases items.len() - i,
        {
            match Effect::from_value(&items[i]) {
                Ok(e) => strategies.push(e),
                Err(e) => {
                    assert(!all_patterns(items@));
                    return Err(e);
                },
            }
            i = i + 1;
        }
        assert(patterns_of(items@, strategies@));
        let blur = Blur::from_value(o)?;
        let exponentiate = Exponentiate::from_value(o)?;
        let rotation = Rotation::from_value(o)?;
        let checker = Checker::from_value(o)?;
        let invert = Invert::from_value(o)?;
        let mirror = Mirror::from_value(o)?;
        let palette = Palette::from_value(o)?;
        Ok(Ordered { strategies, blur, exponentiate, rotation, checker, invert, mirror, palette })
    }
}

} // verus!
