//! What the library takes from, and asks of, the native console.

pub mod ansi_support;
pub mod kernel;
