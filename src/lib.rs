//! Symbolic circuit generation for pairing arithmetic over a tower of field
//! extensions, emitted as text in a gate-based circuit DSL.
pub mod circuit;
pub mod fields;
pub mod pairing;
pub mod emit;
pub mod generate;
pub mod cli;
pub mod eval;
pub mod laws;
pub mod sparse_laws;
