//! A typed CSS value pipeline and cascade-resolution engine.
//!
//! The crate turns per-node, per-property style hints into fully resolved,
//! inheritance-free style values: a color model (construction, HSL
//! conversion, keyword table, textual parsing), the closed enumerations of
//! CSS 2.1 property values, an adapter from raw per-property hints to typed
//! values, and a cascade resolver that walks a style tree from root to leaf
//! and leaves no `inherit` marker behind.

pub mod color;
pub mod complete;
pub mod computed;
pub mod fixed;
pub mod hint;
pub mod parser;
pub mod select;
pub mod stylesheet;
pub mod text;
pub mod types;
pub mod units;
pub mod values;

pub use fixed::Fixed;
