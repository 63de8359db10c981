//! The colour backend that calls the native console.
//!
//! The console keeps the colours of its text in one attribute word. The four
//! low bits are the foreground: blue, green, red and intensity. The next four
//! are the background, in the same order.

use crate::kernel::windows_kernel::kernel::{get_original_console_color, ScreenBufferInfo};
use crate::kernel::{Action, Fatal, Reply, Request};
use crate::shared::decimal::{decimal, to_decimal};
use crate::style::color::ITerminalColor;
use crate::style::{Color, ColorType};
use vstd::prelude::*;

verus! {

pub const FOREGROUND_BLUE: u16 = 0x0001;

pub const FOREGROUND_GREEN: u16 = 0x0002;

pub const FOREGROUND_RED: u16 = 0x0004;

pub const FOREGROUND_INTENSITY: u16 = 0x0008;

pub const BACKGROUND_BLUE: u16 = 0x0010;

pub const BACKGROUND_GREEN: u16 = 0x0020;

pub const BACKGROUND_RED: u16 = 0x0040;

pub const BACKGROUND_INTENSITY: u16 = 0x0080;

/// The colour has red in it.
pub open spec fn has_red(color: Color) -> bool {
    color is Red || color is DarkRed || color is Yellow || color is DarkYellow || color is Magenta
        || color is DarkMagenta || color is White
}

/// The colour has green in it.
pub open spec fn has_green(color: Color) -> bool {
    color is Green || color is DarkGreen || color is Yellow || color is DarkYellow || color is Cyan
        || color is DarkCyan || color is White
}

/// The colour has blue in it.
pub open spec fn has_blue(color: Color) -> bool {
    color is Blue || color is DarkBlue || color is Magenta || color is DarkMagenta || color is Cyan
        || color is DarkCyan || color is White
}

/// The colour is one of the bright ones.
pub open spec fn is_intense(color: Color) -> bool {
    color is Red || color is Green || color is Yellow || color is Blue || color is Magenta
        || color is Cyan || color is Grey || color is White
}

/// The four bits of a colour: blue, green, red, intensity.
pub open spec fn color_nibble(color: Color) -> int {
    (if has_blue(color) {
        1int
    } else {
        0int
    }) + (if has_green(color) {
        2int
    } else {
        0int
    }) + (if has_red(color) {
        4int
    } else {
        0int
    }) + (if is_intense(color) {
        8int
    } else {
        0int
    })
}

/// The bits of the attribute word that stand for a colour: its four bits, in
/// the low place for a foreground and one place higher for a background.
pub open spec fn color_bits(color: Color, color_type: ColorType) -> u16 {
    match color_type {
        ColorType::Foreground => color_nibble(color) as u16,
        ColorType::Background => (16 * color_nibble(color)) as u16,
    }
}

/// The attribute word that gives the text a foreground colour and keeps the
/// background of the word `attrs`.
pub open spec fn with_foreground(attrs: u16, color: Color) -> u16 {
    color_bits(color, ColorType::Foreground) | (attrs & 0x00f0)
}

/// The attribute word that gives the text a background colour and keeps the
/// foreground of the word `attrs`.
pub open spec fn with_background(attrs: u16, color: Color) -> u16 {
    (attrs & 0x000f) | color_bits(color, ColorType::Background)
}

/// One step of setting one of the two colours: the console reports its
/// screen buffer, and the attribute word made from the word in the report is
/// set. Without a report the condition is fatal. Whether the word could be
/// set is how the action ends.
pub open spec fn coloring(reply: Reply, color: Color, color_type: ColorType) -> Action {
    match reply {
        Reply::Start => Action::Call(Request::GetConsoleScreenBufferInfo),
        Reply::ScreenBufferInfo(Some(info)) => Action::Call(
            Request::SetConsoleTextAttribute(
                match color_type {
                    ColorType::Foreground => with_foreground(info.attributes, color),
                    ColorType::Background => with_background(info.attributes, color),
                },
            ),
        ),
        Reply::ScreenBufferInfo(None) => Action::Fatal(Fatal::ScreenBufferInfo),
        Reply::Done(ok) => Action::Finished(ok),
        _ => Action::Finished(false),
    }
}

/// The colours of the native console.
#[derive(Clone, Copy, Debug, PartialEq, Eq)]
pub struct WinApiColor {
    /// The attribute word that the console had when the backend was made.
    pub original_console_color: u16,
}

impl WinApiColor {
    /// The backend, which remembers the attribute word of `info` as the
    /// colours to go back to.
    pub fn new(info: &ScreenBufferInfo) -> (color: WinApiColor)
        ensures
            color.original_console_color == info.attributes,
    {
        WinApiColor { original_console_color: get_original_console_color(info) }
    }

    /// The bits of the attribute word that stand for a colour.
    pub fn color_bits(&self, color: Color, color_type: ColorType) -> (winapi_color: u16)
        ensures
            winapi_color == color_bits(color, color_type),
    {
        let fg_green = FOREGROUND_GREEN;
        let fg_red = FOREGROUND_RED;
        let fg_blue = FOREGROUND_BLUE;
        let fg_intensity = FOREGROUND_INTENSITY;

        let bg_green = BACKGROUND_GREEN;
        let bg_red = BACKGROUND_RED;
        let bg_blue = BACKGROUND_BLUE;
        let bg_intensity = BACKGROUND_INTENSITY;

        match color_type {
            ColorType::Foreground => match color {
                Color::Black => 0,
                Color::Red => fg_intensity + fg_red,
                Color::DarkRed => fg_red,
                Color::Green => fg_intensity + fg_green,
                Color::DarkGreen => fg_green,
                Color::Yellow => fg_intensity + fg_green + fg_red,
                Color::DarkYellow => fg_green + fg_red,
                Color::Blue => fg_intensity + fg_blue,
                Color::DarkBlue => fg_blue,
                Color::Magenta => fg_intensity + fg_red + fg_blue,
                Color::DarkMagenta => fg_red + fg_blue,
                Color::Cyan => fg_intensity + fg_green + fg_blue,
                Color::DarkCyan => fg_green + fg_blue,
                Color::Grey => fg_intensity,
                Color::White => fg_intensity + fg_red + fg_green + fg_blue,
            },
            ColorType::Background => match color {
                Color::Black => 0,
                Color::Red => bg_intensity + bg_red,
                Color::DarkRed => bg_red,
                Color::Green => bg_intensity + bg_green,
                Color::DarkGreen => bg_green,
                Color::Yellow => bg_intensity + bg_green + bg_red,
                Color::DarkYellow => bg_green + bg_red,
                Color::Blue => bg_intensity + bg_blue,
                Color::DarkBlue => bg_blue,
                Color::Magenta => bg_intensity + bg_red + bg_blue,
                Color::DarkMagenta => bg_red + bg_blue,
                Color::Cyan => bg_intensity + bg_green + bg_blue,
                Color::DarkCyan => bg_green + bg_blue,
                Color::Grey => bg_intensity,
                Color::White => bg_intensity + bg_red + bg_green + bg_blue,
            },
        }
    }
}

impl ITerminalColor for WinApiColor {
    open spec fn set_fg_spec(&self, reply: Reply, fg_color: Color) -> Action {
        coloring(reply, fg_color, ColorType::Foreground)
    }

    open spec fn set_bg_spec(&self, reply: Reply, bg_color: Color) -> Action {
        coloring(reply, bg_color, ColorType::Background)
    }

    /// The attribute word that the console had when the backend was made is
    /// set again.
    open spec fn reset_spec(&self, reply: Reply) -> Action {
        match reply {
            Reply::Start => Action::Call(
                Request::SetConsoleTextAttribute(self.original_console_color),
            ),
            Reply::Done(ok) => Action::Finished(ok),
            _ => Action::Finished(false),
        }
    }

    /// The decimal numeral of the bits that stand for the colour.
    open spec fn color_value_spec(&self, color: Color, color_type: ColorType) -> Seq<char> {
        decimal(color_bits(color, color_type) as nat)
    }

    fn set_fg(&self, reply: Reply, fg_color: Color) -> (action: Action) {
        match reply {
            Reply::Start => Action::Call(Request::GetConsoleScreenBufferInfo),
            Reply::ScreenBufferInfo(Some(csbi)) => {
                let color_value = self.color_bits(fg_color, ColorType::Foreground);
                let attrs = csbi.attributes;
                let bg_color = attrs & 0x0070;
                let mut color: u16 = color_value | bg_color;
                // The intensity of the background is a bit of its own.
                if (attrs & BACKGROUND_INTENSITY) != 0 {
                    color = color | BACKGROUND_INTENSITY;
                }
                assert(color == color_value | (attrs & 0x00f0)) by (bit_vector)
                    requires
                        color == (if attrs & 0x0080 != 0 {
                            (color_value | (attrs & 0x0070)) | 0x0080
                        } else {
                            color_value | (attrs & 0x0070)
                        }),
                ;
                Action::Call(Request::SetConsoleTextAttribute(color))
            },
            Reply::ScreenBufferInfo(None) => Action::Fatal(Fatal::ScreenBufferInfo),
            Reply::Done(ok) => Action::Finished(ok),
            _ => Action::Finished(false),
        }
    }

    fn set_bg(&self, reply: Reply, bg_color: Color) -> (action: Action) {
        match reply {
            Reply::Start => Action::Call(Request::GetConsoleScreenBufferInfo),
            Reply::ScreenBufferInfo(Some(csbi)) => {
                let color_value = self.color_bits(bg_color, ColorType::Background);
                let attrs = csbi.attributes;
                let fg_color = attrs & 0x0007;
                let mut color: u16 = fg_color | color_value;
                // The intensity of the foreground is a bit of its own.
                if (attrs & FOREGROUND_INTENSITY) != 0 {
                    color = color | FOREGROUND_INTENSITY;
                }
                assert(color == (attrs & 0x000f) | color_value) by (bit_vector)
                    requires
                        color == (if attrs & 0x0008 != 0 {
                            ((attrs & 0x0007) | color_value) | 0x0008
                        } else {
                            (attrs & 0x0007) | color_value
                        }),
                ;
                Action::Call(Request::SetConsoleTextAttribute(color))
            },
            Reply::ScreenBufferInfo(None) => Action::Fatal(Fatal::ScreenBufferInfo),
            Reply::Done(ok) => Action::Finished(ok),
            _ => Action::Finished(false),
        }
    }

    fn reset(&self, reply: Reply) -> (action: Action) {
        match reply {
            Reply::Start => Action::Call(
                Request::SetConsoleTextAttribute(self.original_console_color),
            ),
            Reply::Done(ok) => Action::Finished(ok),
            _ => Action::Finished(false),
        }
    }

    fn color_value(&self, color: Color, color_type: ColorType) -> (value: String) {
        let winapi_color = self.color_bits(color, color_type);
        to_decimal(winapi_color as u32)
    }
}

/// Setting the colour of the text sets the four foreground bits to those of
/// the colour, keeps the four background bits of the attribute word, and
/// clears the rest of the word.
pub proof fn lemma_foreground_keeps_background(attrs: u16, color: Color)
    ensures
        with_foreground(attrs, color) & 0x000f == color_bits(color, ColorType::Foreground),
        with_foreground(attrs, color) & 0x00f0 == attrs & 0x00f0,
        with_foreground(attrs, color) & 0xff00 == 0,
{
    let value = color_bits(color, ColorType::Foreground);
    assert(value <= 0x000f);
    assert((value | (attrs & 0x00f0)) & 0x000f == value) by (bit_vector)
        requires
            value <= 0x000f,
    ;
    assert((value | (attrs & 0x00f0)) & 0x00f0 == attrs & 0x00f0) by (bit_vector)
        requires
            value <= 0x000f,
    ;
    assert((value | (attrs & 0x00f0)) & 0xff00 == 0) by (bit_vector)
        requires
            value <= 0x000f,
    ;
}

/// Setting the colour of the background sets the four background bits to
/// those of the colour, keeps the four foreground bits of the attribute word,
/// and clears the rest of the word.
pub proof fn lemma_background_keeps_foreground(attrs: u16, color: Color)
    ensures
        with_background(attrs, color) & 0x00f0 == color_bits(color, ColorType::Background),
        with_background(attrs, color) & 0x000f == attrs & 0x000f,
        with_background(attrs, color) & 0xff00 == 0,
{
    let nibble = color_bits(color, ColorType::Foreground);
    let value = color_bits(color, ColorType::Background);
    assert(nibble <= 0x000f);
    assert(value == 16 * nibble);
    assert(((attrs & 0x000f) | value) & 0x00f0 == value) by (bit_vector)
        requires
            nibble <= 0x000f,
            value == 16 * nibble,
    ;
    assert(((attrs & 0x000f) | value) & 0x000f == attrs & 0x000f) by (bit_vector)
        requires
            nibble <= 0x000f,
            value == 16 * nibble,
    ;
    assert(((attrs & 0x000f) | value) & 0xff00 == 0) by (bit_vector)
        requires
            nibble <= 0x000f,
            value == 16 * nibble,
    ;
}

} // verus!
