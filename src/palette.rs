use vstd::prelude::*;

use crate::chroma::{chroma_attached, ChromaStrategy};
use crate::config::{
    as_list, as_str, field, get, items_of, malformed_field, text_field, text_of, ConfigError,
    ConfigNode,
};
use crate::text::text_eq;
use crate::hue::HueStrategies;
use crate::lum::{LumStrategy, MAX_LUM};

verus! {

/// A colour in the cylindrical L*C*h space, every component in thousandths:
/// luminance, chroma, and hue in degrees.
#[derive(Debug, Clone, Copy, PartialEq, Eq, Structural)]
pub struct LchColor {
    pub l: i64,
    pub chroma: i64,
    pub hue: i64,
}

/// Flags that change a palette beyond its strategies.
#[derive(Debug, Clone, Copy, PartialEq, Eq, Structural)]
pub struct MiscFlags {
    /// Append pure black and pure white to every palette.
    pub extremes: bool,
}

impl MiscFlags {
    pub fn new() -> (r: MiscFlags)
        ensures
            !r.extremes,
    {
        MiscFlags { extremes: false }
    }
}

/// Pure black.
pub open spec fn black() -> LchColor {
    LchColor { l: 0, chroma: 0, hue: 0 }
}

/// Pure white.
pub open spec fn white() -> LchColor {
    LchColor { l: MAX_LUM, chroma: 0, hue: 0 }
}

/// The colour of a `(hue, chroma, luminance)` triple.
pub open spec fn triple_color(t: (i64, i64, i64)) -> LchColor {
    LchColor { l: t.2, chroma: t.1, hue: t.0 }
}

/// The colours of `triples`, followed by black and white when `extremes`.
pub open spec fn palette_colors(triples: Seq<(i64, i64, i64)>, extremes: bool) -> Seq<LchColor> {
    let base = triples.map_values(|t: (i64, i64, i64)| triple_color(t));
    if extremes {
        base.push(black()).push(white())
    } else {
        base
    }
}

/// With the extremes flag, a palette is the same colours followed by exactly
/// two more, black then white, whatever the stages produced.
pub proof fn lemma_extremes_add_two(triples: Seq<(i64, i64, i64)>)
    ensures
        palette_colors(triples, true) == palette_colors(triples, false).push(black()).push(white()),
        palette_colors(triples, true).len() == triples.len() + 2,
        black().l == 0 && black().chroma == 0,
        white().l == MAX_LUM && white().chroma == 0,
{
}

/// The configuration of a palette: hue, luminance and chroma stages and the
/// flags applied after them.
#[derive(Debug)]
pub struct PaletteConfig {
    pub lum_strategy: LumStrategy,
    pub chroma_strategy: ChromaStrategy,
    pub hue_strategies: HueStrategies,
    pub misc_flag: MiscFlags,
}

/// A palette generator; each call of `generate` gives a fresh colour list.
#[derive(Debug)]
pub struct Palette {
    pub config: PaletteConfig,
}

impl Palette {
    pub open spec fn wf(&self) -> bool {
        self.config.lum_strategy.wf() && self.config.hue_strategies.wf()
    }

    /// `colors` is a result that `generate` may return: hues from the hue
    /// stage, luminances attached to them, chroma attached to those, and the
    /// extremes when flagged.
    pub open spec fn can_generate(&self, colors: Seq<LchColor>) -> bool {
        exists|hues: Seq<i64>, pairs: Seq<(i64, i64)>, triples: Seq<(i64, i64, i64)>|
            #[trigger] self.stages(hues, pairs, triples) && colors == palette_colors(
                triples,
                self.config.misc_flag.extremes,
            )
    }

    pub open spec fn stages(
        &self,
        hues: Seq<i64>,
        pairs: Seq<(i64, i64)>,
        triples: Seq<(i64, i64, i64)>,
    ) -> bool {
        &&& self.config.hue_strategies.can_generate(hues)
        &&& self.config.lum_strategy.can_attach_lums(hues, pairs)
        &&& chroma_attached(pairs, triples)
    }

    /// Hue generation, then luminance, then chroma, then the extremes.
    pub fn generate(&self) -> (r: Vec<LchColor>)
        requires
            self.wf(),
        ensures
            self.can_generate(r@),
            self.config.misc_flag.extremes ==> r@.len() >= 2 && r@[r@.len() - 2] == black()
                && r@[r@.len() - 1] == white(),
    {
        let hues = self.config.hue_strategies.generate_hues();
        let pairs = self.config.lum_strategy.attach_lums(&hues);
        let triples = self.config.chroma_strategy.attach_chroma(&pairs);
        let r = colors_of(&triples, self.config.misc_flag.extremes);
        assert(self.stages(hues@, pairs@, triples@));
        r
    }
}

/// The colours of `triples`, followed by black and white when `extremes`.
pub fn colors_of(triples: &Vec<(i64, i64, i64)>, extremes: bool) -> (r: Vec<LchColor>)
    ensures
        r@ == palette_colors(triples@, extremes),
{
    let mut out: Vec<LchColor> = Vec::new();
    let mut i: usize = 0;
    while i < triples.len()
        invariant
            0 <= i <= triples.len(),
            out@ == triples@.take(i as int).map_values(|t: (i64, i64, i64)| triple_color(t)),
        decreases triples.len() - i,
    {
        let (h, c, l) = triples[i];
        out.push(LchColor { l, chroma: c, hue: h });
        i = i + 1;
        assert(out@ =~= triples@.take(i as int).map_values(|t: (i64, i64, i64)| triple_color(t)));
    }
    assert(triples@.take(triples@.len() as int) =~= triples@);
    if extremes {
        out.push(LchColor { l: 0, chroma: 0, hue: 0 });
        out.push(LchColor { l: MAX_LUM, chroma: 0, hue: 0 });
    }
    out
}

} // verus!

verus! {

/// Every node of `items` is a string.
pub open spec fn all_texts(items: Seq<ConfigNode>) -> bool {
    forall|i: int| 0 <= i < items.len() ==> (#[trigger] text_of(items[i])) is Some
}

/// Some node of `items` is the string `t`.
pub open spec fn has_text(items: Seq<ConfigNode>, t: Seq<char>) -> bool {
    exists|i: int| 0 <= i < items.len() && #[trigger] text_of(items[i]) == Some(t)
}

impl MiscFlags {
    /// `node` has a `misc-flags` list of strings.
    pub open spec fn accepts(node: ConfigNode) -> bool {
        field(node, "misc-flags"@) matches Some(n) && (items_of(n) matches Some(items) && all_texts(
            items,
        ))
    }

    /// `extremes` is set exactly when the list holds `extremes`.
    pub open spec fn parsed(node: ConfigNode, f: MiscFlags) -> bool {
        field(node, "misc-flags"@) matches Some(n) && (items_of(n) matches Some(items) && f.extremes
            == has_text(items, "extremes"@))
    }

    /// The flags under the required `misc-flags` list.
    pub fn from_value(value: &ConfigNode) -> (r: Result<MiscFlags, ConfigError>)
        ensures
            r is Ok <==> Self::accepts(*value),
            r matches Ok(f) ==> Self::parsed(*value, f),
    {
        let n = match get(value, "misc-flags") {
            Some(n) => n,
            None => return Err(malformed_field("misc-flags")),
        };
        let items = match as_list(n) {
            Some(items) => items,
            None => return Err(malformed_field("misc-flags")),
        };
        let mut flags = MiscFlags::new();
        let mut i: usize = 0;
        while i < items.len()
            invariant
                0 <= i <= items.len(),
                field(*value, "misc-flags"@) == Some(*n),
                items_of(*n) == Some(items@),
                forall|j: int| 0 <= j < i ==> (#[trigger] text_of(items@[j])) is Some,
                flags.extremes == has_text(items@.take(i as int), "extremes"@),
            decreases items.len() - i,
        {
            match as_str(&items[i]) {
                Some(t) => {
                    if text_eq(t, "extremes") {
                        flags.extremes = true;
                    }
                },
                None => {
                    assert(!all_texts(items@));
                    return Err(malformed_field("misc-flags"));
                },
            }
            proof {
                let next = items@.take(i + 1);
                if has_text(items@.take(i as int), "extremes"@) {
                    let k = choose|k: int|
                        0 <= k < i && #[trigger] text_of(items@.take(i as int)[k]) == Some(
                            "extremes"@,
                        );
                    assert(next[k] == items@.take(i as int)[k]);
                }
                if text_of(items@[i as int]) == Some("extremes"@) {
                    assert(next[i as int] == items@[i as int]);
                }
                if has_text(next, "extremes"@) {
                    let k = choose|k: int|
                        0 <= k < i + 1 && #[trigger] text_of(next[k]) == Some("extremes"@);
                    if k < i {
                        assert(items@.take(i as int)[k] == next[k]);
                    }
                }
            }
            i = i + 1;
        }
        assert(items@.take(items@.len() as int) =~= items@);
        Ok(flags)
    }
}

impl PaletteConfig {
    /// `c` is the palette configuration that `node` describes.
    pub open spec fn parsed(node: ConfigNode, c: PaletteConfig) -> bool {
        &&& field(node, "lum-strategy"@) matches Some(l) && LumStrategy::parsed(l, c.lum_strategy)
        &&& field(node, "chroma-strategy"@) is Some
        &&& field(node, "hue-strategies"@) matches Some(h) && HueStrategies::parsed(
            h,
            c.hue_strategies,
        )
        &&& MiscFlags::parsed(node, c.misc_flag)
    }

    /// `node` describes a palette configuration.
    pub open spec fn accepts(node: ConfigNode) -> bool {
        &&& field(node, "lum-strategy"@) matches Some(l) && LumStrategy::accepts(l)
        &&& field(node, "chroma-strategy"@) matches Some(c) && text_field(c, "type"@) == Some(
            "random"@,
        )
        &&& field(node, "hue-strategies"@) matches Some(h) && HueStrategies::accepts(h)
        &&& MiscFlags::accepts(node)
    }

    pub fn from_value(value: &ConfigNode) -> (r: Result<PaletteConfig, ConfigError>)
        ensures
            r is Ok <==> Self::accepts(*value),
            r matches Ok(c) ==> Self::parsed(*value, c) && c.lum_strategy.wf()
                && c.hue_strategies.wf(),
    {
        let lum_strategy = match get(value, "lum-strategy") {
            Some(n) => LumStrategy::from_value(n)?,
            None => return Err(malformed_field("lum-strategy")),
        };
        let chroma_strategy = match get(value, "chroma-strategy") {
            Some(n) => ChromaStrategy::from_value(n)?,
            None => return Err(malformed_field("chroma-strategy")),
        };
        let hue_strategies = match get(value, "hue-strategies") {
            Some(n) => HueStrategies::from_value(n)?,
            None => return Err(malformed_field("hue-strategies")),
        };
        let misc_flag = MiscFlags::from_value(value)?;
        Ok(PaletteConfig { lum_strategy, chroma_strategy, hue_strategies, misc_flag })
    }
}

impl Palette {
    /// The configuration under `palette.config`.
    pub open spec fn config_node(node: ConfigNode) -> Option<ConfigNode> {
        match field(node, "palette"@) {
            Some(p) => field(p, "config"@),
            None => None,
        }
    }

    /// The palette under `palette.config` of a node.
    pub fn from_value(value: &ConfigNode) -> (r: Result<Palette, ConfigError>)
        ensures
            r is Ok <==> (Self::config_node(*value) matches Some(c) && PaletteConfig::accepts(c)),
            r matches Ok(p) ==> (Self::config_node(*value) matches Some(c) && PaletteConfig::parsed(
                c,
                p.config,
            )) && p.wf(),
    {
        let p = match get(value, "palette") {
            Some(p) => p,
            None => return Err(malformed_field("palette")),
        };
        let c = match get(p, "config") {
            Some(c) => c,
            None => return Err(malformed_field("palette.config")),
        };
        let config = PaletteConfig::from_value(c)?;
        Ok(Palette { config })
    }
}

} // verus!
