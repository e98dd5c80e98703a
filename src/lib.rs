//! Procedural generation of image-effect recipes.
//!
//! A configuration is parsed once into an immutable tree of sampleable
//! values, strategies and effect nodes; every call to a generator draws fresh
//! values from that tree. Real numbers are held as fixed-point integers in
//! thousandths (see [`value::UNIT`]).

pub mod chroma;
pub mod config;
pub mod effects;
pub mod fixed;
pub mod hue;
pub mod lum;
pub mod media;
pub mod ordered;
pub mod palette;
pub mod pattern;
pub mod resource;
pub mod rng;
pub mod structure;
pub mod text;
pub mod value;
pub mod weighted;
