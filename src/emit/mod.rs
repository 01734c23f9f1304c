//! The emitter: named, finalized statements after a fixed import preamble.
pub mod builder;
pub mod adder;
