use vstd::prelude::*;

use crate::config::{ConfigError, ConfigNode};
use crate::effects::Effects;
use crate::media::{Output, Source};

verus! {

/// A whole configuration: where the source comes from, where results go,
/// and the effects to draw for each result.
#[derive(Debug)]
pub struct MainConfiguration {
    pub source: Source,
    pub output: Output,
    pub effects: Effects,
}

impl MainConfiguration {
    /// The configuration of a document's root node. It fails exactly when
    /// one of its parts does.
    pub fn from_value(value: &ConfigNode) -> (r: Result<MainConfiguration, ConfigError>)
        ensures
            r is Ok ==> Source::accepts(*value) && Output::accepts(*value) && Effects::accepts(*value),
            Source::accepts(*value) && Source::is_file(*value) && Output::accepts(*value)
                && Effects::accepts(*value) ==> r is Ok,
            r matches Ok(c) ==> c.effects.wf(),
    {
        let source = Source::from_value(value)?;
        let output = Output::from_value(value)?;
        let effects = Effects::from_value(value)?;
        Ok(MainConfiguration { source, output, effects })
    }
}

} // verus!
