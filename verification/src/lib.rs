//! Code generation for `#[derive(DeserializeState)]`.
//!
//! The library turns a plain description of a type declaration
//! ([`model::TypeDecl`]) into the Rust source of a `DeserializeState`
//! implementation (and, on request, a plain `Deserialize` implementation that
//! runs with a default state).  Every generator states the exact text it
//! produces; the decisions that shape the text (which bounds are inferred,
//! which generic parameters are added, how each field is read) are stated as
//! contracts and laws over the declaration.

pub mod bounds;
pub mod de;
pub mod expand;
pub mod generics;
pub mod model;
pub mod text;
