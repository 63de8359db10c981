//! Pieces that both backends use.

pub mod decimal;
pub mod functions;
pub mod sequence;
