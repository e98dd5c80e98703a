use vstd::prelude::*;

use crate::config::{
    all_real_properties, as_list, field, first_key, first_key_exec, get, items_of,
    malformed_field, real_field, real_field_req, real_list, real_properties_of, real_required,
    text_field, text_field_exec, unsupported_field, ConfigError, ConfigNode,
};
use crate::ordered::{Ordered, OrderedRecipe};
use crate::palette::{LchColor, Palette, PaletteConfig};
use crate::text::text_eq;
use crate::value::ValueProperty;

verus! {

/// A brightness change, factor in thousandths.
#[derive(Debug, Clone)]
pub struct Brighten(pub ValueProperty<i64>);

/// A saturation change, factor in thousandths.
#[derive(Debug, Clone)]
pub struct Saturate(pub ValueProperty<i64>);

/// A contrast change, factor in thousandths.
#[derive(Debug, Clone)]
pub struct Contrast(pub ValueProperty<i64>);

/// A hue rotation, in thousandths of a degree.
#[derive(Debug, Clone)]
pub struct HueRotate(pub ValueProperty<i64>);

/// A hue multiplication, factor in thousandths.
#[derive(Debug, Clone)]
pub struct MultiplyHue(pub ValueProperty<i64>);

/// Hue quantisation onto the hues drawn from the configured values.
#[derive(Debug, Clone)]
pub struct QuantizeHue {
    pub hues: Vec<ValueProperty<i64>>,
}

/// One stop of a gradient map: a colour and the threshold at which it
/// applies, in thousandths.
#[derive(Debug, Clone, Copy, PartialEq, Eq, Structural)]
pub struct GradientStop {
    pub red: u8,
    pub green: u8,
    pub blue: u8,
    pub threshold: i64,
}

/// A gradient map with fixed stops.
#[derive(Debug, Clone)]
pub struct GradientMap {
    pub stops: Vec<GradientStop>,
}

/// The error-diffusion matrices.
#[derive(Debug, Clone, Copy, PartialEq, Eq, Structural)]
pub enum ErrorPropagatorKind {
    FloydSteinberg,
    JarvisJudiceNinke,
    Atkinson,
    Burkes,
    Stucki,
    Sierra,
    SierraTwoRow,
    SierraLite,
}

/// Error-diffusion dithering with a generated palette.
#[derive(Debug)]
pub struct ErrorPropagator {
    pub kind: ErrorPropagatorKind,
    pub palette: Palette,
}

/// A concrete effect, every parameter drawn.
#[derive(Debug)]
pub enum ConcreteEffect {
    Brighten(i64),
    Saturate(i64),
    Contrast(i64),
    HueRotate(i64),
    MultiplyHue(i64),
    QuantizeHue(Vec<i64>),
    GradientMap(Vec<GradientStop>),
    ErrorPropagator(ErrorPropagatorKind, Vec<LchColor>),
    Ordered(Vec<LchColor>, OrderedRecipe),
}

/// One configured effect.
#[derive(Debug)]
pub enum EffectKind {
    Brighten(Brighten),
    Saturate(Saturate),
    Contrast(Contrast),
    HueRotate(HueRotate),
    MultiplyHue(MultiplyHue),
    QuantizeHue(QuantizeHue),
    GradientMap(GradientMap),
    ErrorPropagator(ErrorPropagator),
    Ordered(Ordered),
}

/// `hues` holds one value drawn from each of `props`, in order.
pub open spec fn drawn_each(props: Seq<ValueProperty<i64>>, hues: Seq<i64>) -> bool {
    &&& hues.len() == props.len()
    &&& forall|i: int| 0 <= i < hues.len() ==> props[i].can_yield(#[trigger] hues[i])
}

impl EffectKind {
    pub open spec fn wf(&self) -> bool {
        match self {
            EffectKind::Brighten(Brighten(v)) => v.wf(),
            EffectKind::Saturate(Saturate(v)) => v.wf(),
            EffectKind::Contrast(Contrast(v)) => v.wf(),
            EffectKind::HueRotate(HueRotate(v)) => v.wf(),
            EffectKind::MultiplyHue(MultiplyHue(v)) => v.wf(),
            EffectKind::QuantizeHue(q) => forall|i: int|
                0 <= i < q.hues.len() ==> (#[trigger] q.hues@[i]).wf(),
            EffectKind::GradientMap(_) => true,
            EffectKind::ErrorPropagator(e) => e.palette.wf(),
            EffectKind::Ordered(o) => o.wf(),
        }
    }

    /// `e` is an effect that `generate` may return: the matching kind with
    /// parameters drawn from this configuration.
    pub open spec fn can_produce(&self, e: ConcreteEffect) -> bool {
        match (self, e) {
            (EffectKind::Brighten(Brighten(v)), ConcreteEffect::Brighten(x)) => v.can_yield(x),
            (EffectKind::Saturate(Saturate(v)), ConcreteEffect::Saturate(x)) => v.can_yield(x),
            (EffectKind::Contrast(Contrast(v)), ConcreteEffect::Contrast(x)) => v.can_yield(x),
            (EffectKind::HueRotate(HueRotate(v)), ConcreteEffect::HueRotate(x)) => v.can_yield(x),
            (EffectKind::MultiplyHue(MultiplyHue(v)), ConcreteEffect::MultiplyHue(x)) => v.can_yield(
                x,
            ),
            (EffectKind::QuantizeHue(q), ConcreteEffect::QuantizeHue(hues)) => drawn_each(
                q.hues@,
                hues@,
            ),
            (EffectKind::GradientMap(g), ConcreteEffect::GradientMap(stops)) => stops@ == g.stops@,
            (EffectKind::ErrorPropagator(p), ConcreteEffect::ErrorPropagator(k, colors)) => k
                == p.kind && p.palette.can_generate(colors@),
            (EffectKind::Ordered(o), ConcreteEffect::Ordered(colors, recipe)) =>
                o.palette.can_generate(colors@) && o.can_assemble(recipe),
            _ => false,
        }
    }

    /// Draws a concrete effect from this configuration.
    pub fn generate(&self) -> (r: ConcreteEffect)
        requires
            self.wf(),
        ensures
            self.can_produce(r),
    {
        match self {
            EffectKind::Brighten(Brighten(v)) => ConcreteEffect::Brighten(v.generate()),
            EffectKind::Saturate(Saturate(v)) => ConcreteEffect::Saturate(v.generate()),
            EffectKind::Contrast(Contrast(v)) => ConcreteEffect::Contrast(v.generate()),
            EffectKind::HueRotate(HueRotate(v)) => ConcreteEffect::HueRotate(v.generate()),
            EffectKind::MultiplyHue(MultiplyHue(v)) => ConcreteEffect::MultiplyHue(v.generate()),
            EffectKind::QuantizeHue(q) => {
                let mut hues: Vec<i64> = Vec::new();
                let mut i: usize = 0;
                while i < q.hues.len()
                    invariant
                        0 <= i <= q.hues.len(),
                        forall|j: int| 0 <= j < q.hues.len() ==> (#[trigger] q.hues@[j]).wf(),
                        hues@.len() == i,
                        forall|j: int| 0 <= j < i ==> q.hues@[j].can_yield(#[trigger] hues@[j]),
                    decreases q.hues.len() - i,
                {
                    assert(q.hues@[i as int].wf());
                    let h = q.hues[i].generate();
                    hues.push(h);
                    i = i + 1;
                }
                ConcreteEffect::QuantizeHue(hues)
            },
            EffectKind::GradientMap(g) => {
                let mut stops: Vec<GradientStop> = Vec::new();
                let mut i: usize = 0;
                while i < g.stops.len()
                    invariant
                        0 <= i <= g.stops.len(),
                        stops@ == g.stops@.take(i as int),
                    decreases g.stops.len() - i,
                {
                    stops.push(g.stops[i]);
                    i = i + 1;
                    assert(stops@ =~= g.stops@.take(i as int));
                }
                assert(g.stops@.take(g.stops@.len() as int) =~= g.stops@);
                ConcreteEffect::GradientMap(stops)
            },
            EffectKind::ErrorPropagator(p) => {
                let colors = p.palette.generate();
                ConcreteEffect::ErrorPropagator(p.kind, colors)
            },
            EffectKind::Ordered(o) => {
                let (colors, recipe) = o.generate_effect();
                ConcreteEffect::Ordered(colors, recipe)
            },
        }
    }
}

/// The configured effects, in the order they are applied.
#[derive(Debug)]
pub struct Effects {
    pub kinds: Vec<EffectKind>,
}

impl Effects {
    pub open spec fn wf(&self) -> bool {
        forall|i: int| 0 <= i < self.kinds.len() ==> (#[trigger] self.kinds@[i]).wf()
    }

    /// Draws every configured effect afresh, in configured order.
    pub fn generate_all(&self) -> (r: Vec<ConcreteEffect>)
        requires
            self.wf(),
        ensures
            r@.len() == self.kinds@.len(),
            forall|i: int| 0 <= i < r@.len() ==> (#[trigger] self.kinds@[i]).can_produce(r@[i]),
    {
        let mut out: Vec<ConcreteEffect> = Vec::new();
        let mut i: usize = 0;
        while i < self.kinds.len()
            invariant
                0 <= i <= self.kinds.len(),
                self.wf(),
                out@.len() == i,
                forall|j: int| 0 <= j < i ==> (#[trigger] self.kinds@[j]).can_produce(out@[j]),
            decreases self.kinds.len() - i,
        {
            assert(self.kinds@[i as int].wf());
            let e = self.kinds[i].generate();
            out.push(e);
            i = i + 1;
        }
        out
    }
}

} // verus!

verus! {

/// The error-diffusion matrix a name selects.
pub open spec fn propagator_named(t: Seq<char>) -> Option<ErrorPropagatorKind> {
    if t == "floydsteinberg"@ || t == "floyd-steinberg"@ || t == "floyd_steinberg"@ {
        Some(ErrorPropagatorKind::FloydSteinberg)
    } else if t == "jarvisjudiceninke"@ || t == "jarvis-judice-ninke"@ || t
        == "jarvis_judice_ninke"@ {
        Some(ErrorPropagatorKind::JarvisJudiceNinke)
    } else if t == "atkinson"@ {
        Some(ErrorPropagatorKind::Atkinson)
    } else if t == "burkes"@ {
        Some(ErrorPropagatorKind::Burkes)
    } else if t == "stucki"@ {
        Some(ErrorPropagatorKind::Stucki)
    } else if t == "sierra"@ {
        Some(ErrorPropagatorKind::Sierra)
    } else if t == "sierra-two-row"@ || t == "sierra_two_row"@ {
        Some(ErrorPropagatorKind::SierraTwoRow)
    } else if t == "sierra-lite"@ || t == "sierra_to_row"@ {
        Some(ErrorPropagatorKind::SierraLite)
    } else {
        None
    }
}

impl ErrorPropagatorKind {
    pub fn from_name(t: &str) -> (r: Option<ErrorPropagatorKind>)
        ensures
            r == propagator_named(t@),
    {
        if text_eq(t, "floydsteinberg") || text_eq(t, "floyd-steinberg") || text_eq(
            t,
            "floyd_steinberg",
        ) {
            Some(ErrorPropagatorKind::FloydSteinberg)
        } else if text_eq(t, "jarvisjudiceninke") || text_eq(t, "jarvis-judice-ninke") || text_eq(
            t,
            "jarvis_judice_ninke",
        ) {
            Some(ErrorPropagatorKind::JarvisJudiceNinke)
        } else if text_eq(t, "atkinson") {
            Some(ErrorPropagatorKind::Atkinson)
        } else if text_eq(t, "burkes") {
            Some(ErrorPropagatorKind::Burkes)
        } else if text_eq(t, "stucki") {
            Some(ErrorPropagatorKind::Stucki)
        } else if text_eq(t, "sierra") {
            Some(ErrorPropagatorKind::Sierra)
        } else if text_eq(t, "sierra-two-row") || text_eq(t, "sierra_two_row") {
            Some(ErrorPropagatorKind::SierraTwoRow)
        } else if text_eq(t, "sierra-lite") || text_eq(t, "sierra_to_row") {
            Some(ErrorPropagatorKind::SierraLite)
        } else {
            None
        }
    }
}

impl ErrorPropagator {
    /// `node` names a matrix under `type` and holds a palette.
    pub open spec fn accepts(node: ConfigNode) -> bool {
        &&& text_field(node, "type"@) matches Some(t) && propagator_named(t) is Some
        &&& Palette::config_node(node) matches Some(c) && PaletteConfig::accepts(c)
    }

    /// Error diffusion: the matrix named under `type` and the palette.
    pub fn from_value(value: &ConfigNode) -> (r: Result<ErrorPropagator, ConfigError>)
        ensures
            r is Ok <==> Self::accepts(*value),
            r matches Ok(e) ==> (text_field(*value, "type"@) matches Some(t) && propagator_named(t)
                == Some(e.kind)) && e.palette.wf(),
    {
        let t = match text_field_exec(value, "type") {
            Some(t) => t,
            None => return Err(malformed_field("type")),
        };
        let kind = match ErrorPropagatorKind::from_name(t) {
            Some(k) => k,
            None => return Err(malformed_field("type")),
        };
        let palette = Palette::from_value(value)?;
        Ok(ErrorPropagator { kind, palette })
    }
}

/// The factor property of the effect named `name`: field `factor` under
/// `name`.
pub open spec fn factor_of(node: ConfigNode, name: Seq<char>, p: ValueProperty<i64>) -> bool {
    field(node, name) matches Some(b) && real_field(b, "factor"@, p)
}

pub open spec fn factor_ok(node: ConfigNode, name: Seq<char>) -> bool {
    field(node, name) matches Some(b) && real_field_req(b, "factor"@)
}

fn parse_factor(value: &ConfigNode, name: &str) -> (r: Result<ValueProperty<i64>, ConfigError>)
    ensures
        r is Ok <==> factor_ok(*value, name@),
        r matches Ok(p) ==> factor_of(*value, name@, p) && p.wf(),
{
    match get(value, name) {
        Some(b) => real_required(b, "factor"),
        None => Err(malformed_field(name)),
    }
}

/// `name` names an effect kind, supported or not.
pub open spec fn known_effect(name: Seq<char>) -> bool {
    name == "brighten"@ || name == "saturate"@ || name == "contrast"@ || name == "hue-rotate"@
        || name == "multiply-hue"@ || name == "quantize-hue"@ || name == "gradient-map"@ || name
        == "error-propagator"@ || name == "ordered"@
}

impl EffectKind {
    /// `node` describes an effect, named by its first key.
    pub open spec fn accepts(node: ConfigNode) -> bool {
        first_key(node) matches Some(name) && {
            if name == "gradient-map"@ {
                false
            } else if name == "brighten"@ || name == "saturate"@ || name == "contrast"@ || name
                == "hue-rotate"@ || name == "multiply-hue"@ {
                factor_ok(node, name)
            } else if name == "quantize-hue"@ {
                field(node, "hues"@) matches Some(h) && (items_of(h) matches Some(items)
                    && all_real_properties(items))
            } else if name == "error-propagator"@ {
                ErrorPropagator::accepts(node)
            } else if name == "ordered"@ {
                Ordered::accepts(node)
            } else {
                false
            }
        }
    }

    /// `k` is an effect of the kind that `node` names.
    pub open spec fn parsed(node: ConfigNode, k: EffectKind) -> bool {
        match k {
            EffectKind::Brighten(Brighten(p)) => first_key(node) == Some("brighten"@) && factor_of(
                node,
                "brighten"@,
                p,
            ),
            EffectKind::Saturate(Saturate(p)) => first_key(node) == Some("saturate"@) && factor_of(
                node,
                "saturate"@,
                p,
            ),
            EffectKind::Contrast(Contrast(p)) => first_key(node) == Some("contrast"@) && factor_of(
                node,
                "contrast"@,
                p,
            ),
            EffectKind::HueRotate(HueRotate(p)) => first_key(node) == Some("hue-rotate"@)
                && factor_of(node, "hue-rotate"@, p),
            EffectKind::MultiplyHue(MultiplyHue(p)) => first_key(node) == Some("multiply-hue"@)
                && factor_of(node, "multiply-hue"@, p),
            EffectKind::QuantizeHue(q) => first_key(node) == Some("quantize-hue"@) && (field(
                node,
                "hues"@,
            ) matches Some(h) && (items_of(h) matches Some(items) && real_properties_of(
                items,
                q.hues@,
            ))),
            EffectKind::GradientMap(_) => false,
            EffectKind::ErrorPropagator(_) => first_key(node) == Some("error-propagator"@),
            EffectKind::Ordered(_) => first_key(node) == Some("ordered"@),
        }
    }

    /// The effect named by the first key of `value`. A gradient map is
    /// recognised but not supported.
    pub fn from_value(value: &ConfigNode) -> (r: Result<EffectKind, ConfigError>)
        ensures
            r is Ok <==> Self::accepts(*value),
            r matches Ok(k) ==> Self::parsed(*value, k) && k.wf(),
            first_key(*value) == Some("gradient-map"@) ==> (r matches Err(e) && e is Unsupported),
            (first_key(*value) matches Some(name) && !known_effect(name)) ==> (r matches Err(e)
                && e is Malformed),
    {
        let name = match first_key_exec(value) {
            Some(n) => n,
            None => return Err(malformed_field("effects")),
        };
        if text_eq(name, "gradient-map") {
            return Err(unsupported_field("gradient-map"));
        }
        if text_eq(name, "brighten") {
            Ok(EffectKind::Brighten(Brighten(parse_factor(value, "brighten")?)))
        } else if text_eq(name, "saturate") {
            Ok(EffectKind::Saturate(Saturate(parse_factor(value, "saturate")?)))
        } else if text_eq(name, "contrast") {
            Ok(EffectKind::Contrast(Contrast(parse_factor(value, "contrast")?)))
        } else if text_eq(name, "hue-rotate") {
            Ok(EffectKind::HueRotate(HueRotate(parse_factor(value, "hue-rotate")?)))
        } else if text_eq(name, "multiply-hue") {
            Ok(EffectKind::MultiplyHue(MultiplyHue(parse_factor(value, "multiply-hue")?)))
        } else if text_eq(name, "quantize-hue") {
            let h = match get(value, "hues") {
                Some(h) => h,
                None => return Err(malformed_field("hues")),
            };
            let hues = real_list(h)?;
            Ok(EffectKind::QuantizeHue(QuantizeHue { hues }))
        } else if text_eq(name, "error-propagator") {
            Ok(EffectKind::ErrorPropagator(ErrorPropagator::from_value(value)?))
        } else if text_eq(name, "ordered") {
            Ok(EffectKind::Ordered(Ordered::from_value(value)?))
        } else {
            Err(malformed_field(name))
        }
    }
}

/// Every node of `items` describes an effect.
pub open spec fn all_effects(items: Seq<ConfigNode>) -> bool {
    forall|i: int| 0 <= i < items.len() ==> EffectKind::accepts(#[trigger] items[i])
}

/// `kinds` are the effects that `items` describe.
pub open spec fn effects_of(items: Seq<ConfigNode>, kinds: Seq<EffectKind>) -> bool {
    kinds.len() == items.len() && forall|i: int|
        0 <= i < items.len() ==> EffectKind::parsed(items[i], #[trigger] kinds[i])
}

impl Effects {
    /// `node` has an `effects` list of effects.
    pub open spec fn accepts(node: ConfigNode) -> bool {
        field(node, "effects"@) matches Some(n) && (items_of(n) matches Some(items) && all_effects(
            items,
        ))
    }

    /// The effects of the `effects` list, in order.
    pub fn from_value(value: &ConfigNode) -> (r: Result<Effects, ConfigError>)
        ensures
            r is Ok <==> (field(*value, "effects"@) matches Some(n) && (items_of(n) matches Some(items)
                && all_effects(items))),
            r matches Ok(e) ==> e.wf() && (field(*value, "effects"@) matches Some(n) && (items_of(
                n,
            ) matches Some(items) && effects_of(items, e.kinds@))),
    {
        let n = match get(value, "effects") {
            Some(n) => n,
            None => return Err(malformed_field("effects")),
        };
        let items = match as_list(n) {
            Some(items) => items,
            None => return Err(malformed_field("effects")),
        };
        let mut kinds: Vec<EffectKind> = Vec::new();
        let mut i: usize = 0;
        while i < items.len()
            invariant
                0 <= i <= items.len(),
                field(*value, "effects"@) == Some(*n),
                items_of(*n) == Some(items@),
                kinds@.len() == i,
                forall|j: int| 0 <= j < i ==> EffectKind::accepts(#[trigger] items@[j]),
                forall|j: int|
                    0 <= j < i ==> EffectKind::parsed(items@[j], #[trigger] kinds@[j])
                        && kinds@[j].wf(),
            decreases items.len() - i,
        {
            match EffectKind::from_value(&items[i]) {
                Ok(k) => kinds.push(k),
                Err(e) => {
                    assert(!all_effects(items@));
                    return Err(e);
                },
            }
            i = i + 1;
        }
        assert(effects_of(items@, kinds@));
        Ok(Effects { kinds })
    }
}

} // verus!
