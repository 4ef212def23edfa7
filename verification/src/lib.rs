//! A uniform, dynamically inspectable value tree for structured data.
//!
//! Typed input is lifted, shape for shape, into the closed [`Value`] union:
//! scalars, optionals, sequences, tuples, maps, structs and enum variants all
//! become distinguishable nodes of one tree. Composite nodes are assembled by
//! short-lived builders in [`ser`]; keyed composites (maps, structs) keep
//! their entries sorted under the explicit total order of [`order`], so field
//! addressing is deterministic. The [`rule`] module holds the whitespace-trim
//! rule, a small consumer that rewrites string nodes in place.

pub mod entries;
pub mod order;
pub mod rule;
pub mod ser;
pub mod value;

pub use rule::Trim;
pub use value::Value;
