//! What the library takes from the terminal device of a Unix system.

pub mod position;
pub mod terminal;
