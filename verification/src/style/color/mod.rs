//! The backends for colours.

pub mod color;
pub mod winapi_color;

use crate::kernel::{Action, Reply};
use crate::style::{Color, ColorType};
use vstd::prelude::*;

verus! {

/// What a backend for colours can do. As with the cursor, every action is a
/// small state machine that is begun with [`Reply::Start`].
pub trait ITerminalColor {
    /// One step of setting the colour of the text.
    spec fn set_fg_spec(&self, reply: Reply, fg_color: Color) -> Action;

    /// One step of setting the colour of the background.
    spec fn set_bg_spec(&self, reply: Reply, bg_color: Color) -> Action;

    /// One step of going back to the colours that the terminal had.
    spec fn reset_spec(&self, reply: Reply) -> Action;

    /// The text by which the backend names a colour.
    spec fn color_value_spec(&self, color: Color, color_type: ColorType) -> Seq<char>;

    /// Sets the colour of the text, one step at a time.
    fn set_fg(&self, reply: Reply, fg_color: Color) -> (action: Action)
        ensures
            action == self.set_fg_spec(reply, fg_color),
    ;

    /// Sets the colour of the background, one step at a time.
    fn set_bg(&self, reply: Reply, bg_color: Color) -> (action: Action)
        ensures
            action == self.set_bg_spec(reply, bg_color),
    ;

    /// Goes back to the colours that the terminal had, one step at a time.
    fn reset(&self, reply: Reply) -> (action: Action)
        ensures
            action == self.reset_spec(reply),
    ;

    /// Names a colour in the way of the backend.
    fn color_value(&self, color: Color, color_type: ColorType) -> (value: String)
        ensures
            value@ == self.color_value_spec(color, color_type),
    ;
}

} // verus!
