//! Styles that can be applied to what is printed.

pub mod objectstyle;
