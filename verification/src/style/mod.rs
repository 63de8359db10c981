//! Colours and the other attributes of text.

pub mod color;
pub mod styles;

use vstd::prelude::*;

verus! {

/// The colours that text and its background can have.
#[derive(Clone, Copy, Debug, PartialEq, Eq)]
pub enum Color {
    Black,
    Red,
    DarkRed,
    Green,
    DarkGreen,
    Yellow,
    DarkYellow,
    Blue,
    DarkBlue,
    Magenta,
    DarkMagenta,
    Cyan,
    DarkCyan,
    Grey,
    White,
}

/// What a colour is applied to.
#[derive(Clone, Copy, Debug, PartialEq, Eq)]
pub enum ColorType {
    Background,
    Foreground,
}

/// The attributes of text beside its colours.
#[derive(Clone, Copy, Debug, PartialEq, Eq)]
pub enum Attribute {
    Bold,
    Dim,
    Italic,
    Underlined,
    SlowBlink,
    RapidBlink,
    Reverse,
    Hidden,
    CrossedOut,
}

} // verus!
