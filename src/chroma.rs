use vstd::prelude::*;

use crate::config::{malformed_field, text_field, text_field_exec, ConfigError, ConfigNode};
use crate::rng::draw_in_i64;
use crate::text::text_eq;

verus! {

/// The exclusive upper bound of a random chroma, in thousandths.
pub const CHROMA_LIMIT: i64 = 128_000;

/// The ways chroma can be attached.
#[derive(Debug, Clone, Copy, PartialEq, Eq, Structural)]
pub enum ChromaStrategyKind {
    /// A uniform chroma in `[0, 128)` for every pair.
    Random,
}

/// `triples` holds, for each `(luminance, hue)` pair in order, the triple
/// `(hue, chroma, luminance)` with a chroma drawn from `[0, 128)`.
pub open spec fn chroma_attached(pairs: Seq<(i64, i64)>, triples: Seq<(i64, i64, i64)>) -> bool {
    &&& triples.len() == pairs.len()
    &&& forall|i: int|
        0 <= i < pairs.len() ==> {
            &&& (#[trigger] triples[i]).0 == pairs[i].1
            &&& 0 <= triples[i].1 < CHROMA_LIMIT
            &&& triples[i].2 == pairs[i].0
        }
}

#[derive(Debug, Clone)]
pub struct ChromaStrategy {
    pub kind: ChromaStrategyKind,
}

impl ChromaStrategy {
    /// Attaches an independently drawn chroma to every `(luminance, hue)`
    /// pair, giving `(hue, chroma, luminance)` triples.
    pub fn attach_chroma(&self, colours: &Vec<(i64, i64)>) -> (r: Vec<(i64, i64, i64)>)
        ensures
            chroma_attached(colours@, r@),
    {
        let mut out: Vec<(i64, i64, i64)> = Vec::new();
        let mut i: usize = 0;
        while i < colours.len()
            invariant
                0 <= i <= colours.len(),
                out@.len() == i,
                forall|j: int|
                    0 <= j < i ==> {
                        &&& (#[trigger] out@[j]).0 == colours@[j].1
                        &&& 0 <= out@[j].1 < CHROMA_LIMIT
                        &&& out@[j].2 == colours@[j].0
                    },
            decreases colours.len() - i,
        {
            let (lum, hue) = colours[i];
            let c = draw_in_i64(0, CHROMA_LIMIT);
            out.push((hue, c, lum));
            i = i + 1;
        }
        out
    }
}

} // verus!

verus! {

impl ChromaStrategy {
    /// The chroma stage a node describes; `random` is the one type.
    pub fn from_value(value: &ConfigNode) -> (r: Result<ChromaStrategy, ConfigError>)
        ensures
            r is Ok <==> text_field(*value, "type"@) == Some("random"@),
            r matches Ok(c) ==> c.kind == ChromaStrategyKind::Random,
    {
        match text_field_exec(value, "type") {
            Some(t) => if text_eq(t, "random") {
                Ok(ChromaStrategy { kind: ChromaStrategyKind::Random })
            } else {
                Err(malformed_field("chroma-strategy.type"))
            },
            None => Err(malformed_field("chroma-strategy.type")),
        }
    }
}

} // verus!
