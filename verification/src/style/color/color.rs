//! The colours as the users of the library see them: one type that stands
//! for the backend that was chosen, and does what that backend does.

use crate::kernel::windows_kernel::kernel::{get_console_screen_buffer_info, ScreenBufferInfo};
use crate::kernel::{Action, Fatal, Reply};
use crate::shared::functions::Backend;
use crate::style::color::winapi_color::WinApiColor;
use crate::style::color::ITerminalColor;
use crate::style::Color;
use vstd::prelude::*;

verus! {

/// The colours of the terminal, on the backend that was chosen for them.
#[derive(Clone, Copy, Debug, PartialEq, Eq)]
pub struct TerminalColor {
    /// The backend. Without one every action finishes at once, having done
    /// nothing.
    pub color: Option<WinApiColor>,
}

/// The colours on a backend, given what the console reported of its screen
/// buffer. The library has a backend for the native console, which remembers
/// the attribute word of the report; without a report that backend cannot be
/// had, which is fatal. Where escape sequences were chosen the colours have no
/// backend, and the report is not looked at.
pub open spec fn colors_on(backend: Backend, reported: Option<ScreenBufferInfo>) -> Result<
    TerminalColor,
    Fatal,
> {
    match backend {
        Backend::Ansi => Ok(TerminalColor { color: None }),
        Backend::WinApi => match reported {
            Some(info) => Ok(
                TerminalColor {
                    color: Some(WinApiColor { original_console_color: info.attributes }),
                },
            ),
            None => Err(Fatal::ScreenBufferInfo),
        },
    }
}

impl TerminalColor {
    /// The colours on a backend that the selector has resolved.
    pub fn on(backend: Backend, reported: Option<ScreenBufferInfo>) -> (colors: Result<
        TerminalColor,
        Fatal,
    >)
        ensures
            colors == colors_on(backend, reported),
    {
        match backend {
            Backend::Ansi => Ok(TerminalColor { color: None }),
            Backend::WinApi => match get_console_screen_buffer_info(reported) {
                Ok(info) => Ok(TerminalColor { color: Some(WinApiColor::new(&info)) }),
                Err(fatal) => Err(fatal),
            },
        }
    }

    /// Sets the colour of the text, one step at a time.
    pub fn set_fg(&self, reply: Reply, color: Color) -> (action: Action)
        ensures
            action == match self.color {
                Some(backend) => backend.set_fg_spec(reply, color),
                None => Action::Finished(false),
            },
    {
        match &self.color {
            Some(backend) => backend.set_fg(reply, color),
            None => Action::Finished(false),
        }
    }

    /// Sets the colour of the background, one step at a time.
    pub fn set_bg(&self, reply: Reply, color: Color) -> (action: Action)
        ensures
            action == match self.color {
                Some(backend) => backend.set_bg_spec(reply, color),
                None => Action::Finished(false),
            },
    {
        match &self.color {
            Some(backend) => backend.set_bg(reply, color),
            None => Action::Finished(false),
        }
    }

    /// Goes back to the colours that the terminal had, one step at a time.
    pub fn reset(&self, reply: Reply) -> (action: Action)
        ensures
            action == match self.color {
                Some(backend) => backend.reset_spec(reply),
                None => Action::Finished(false),
            },
    {
        match &self.color {
            Some(backend) => backend.reset(reply),
            None => Action::Finished(false),
        }
    }
}

} // verus!
