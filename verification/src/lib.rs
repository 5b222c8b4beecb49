//! Zod schema derivation for Rust type definitions, following serde's JSON
//! representation of structs and enums.

pub mod text;
pub mod attrs;
pub mod zod;
pub mod model;
pub mod derive;
pub mod laws;
pub mod read;
pub mod syn_types;
