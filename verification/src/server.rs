//! The rules of the two HTTP endpoints, on plain values.

pub mod control;
pub mod public;
