//! The terminal as the users of the library see it: one type that stands for
//! the backend that was chosen, and does what that backend does.

use crate::kernel::{Action, Query, Reply};
use crate::shared::functions::{Backend, Platform};
use crate::terminal::ansi_terminal::AnsiTerminal;
use crate::terminal::{ClearType, ITerminal};
use vstd::prelude::*;

verus! {

/// The terminal, on the backend that was chosen for it.
#[derive(Clone, Copy, Debug, PartialEq, Eq)]
pub struct Terminal {
    /// The backend. Without one every action finishes at once, having done
    /// nothing, and the size is given as zero by zero.
    pub terminal: Option<AnsiTerminal>,
}

impl Terminal {
    /// The terminal on a backend that the selector has resolved. The library
    /// has a backend for escape sequences; where the native console was
    /// chosen the terminal has none.
    pub fn on(backend: Backend, platform: Platform) -> (terminal: Terminal)
        ensures
            terminal.terminal == match backend {
                Backend::Ansi => Some(AnsiTerminal { platform }),
                Backend::WinApi => None,
            },
    {
        match backend {
            Backend::Ansi => Terminal { terminal: Some(AnsiTerminal::new(platform)) },
            Backend::WinApi => Terminal { terminal: None },
        }
    }

    /// Clears a region of the screen, one step at a time.
    pub fn clear(&self, reply: Reply, clear_type: ClearType) -> (action: Action)
        ensures
            action == match self.terminal {
                Some(backend) => backend.clear_spec(reply, clear_type),
                None => Action::Finished(false),
            },
    {
        match &self.terminal {
            Some(terminal) => terminal.clear(reply, clear_type),
            None => Action::Finished(false),
        }
    }

    /// Asks for the columns and rows of the terminal, one step at a time.
    pub fn terminal_size(&self, reply: Reply) -> (query: Query)
        ensures
            query == match self.terminal {
                Some(backend) => backend.terminal_size_spec(reply),
                None => Query::Found(0, 0),
            },
    {
        match &self.terminal {
            Some(terminal) => terminal.terminal_size(reply),
            None => Query::Found(0, 0),
        }
    }

    /// Scrolls `count` lines up, one step at a time.
    pub fn scroll_up(&self, reply: Reply, count: i16) -> (action: Action)
        ensures
            action == match self.terminal {
                Some(backend) => backend.scroll_up_spec(reply, count),
                None => Action::Finished(false),
            },
    {
        match &self.terminal {
            Some(terminal) => terminal.scroll_up(reply, count),
            None => Action::Finished(false),
        }
    }

    /// Scrolls `count` lines down, one step at a time.
    pub fn scroll_down(&self, reply: Reply, count: i16) -> (action: Action)
        ensures
            action == match self.terminal {
                Some(backend) => backend.scroll_down_spec(reply, count),
                None => Action::Finished(false),
            },
    {
        match &self.terminal {
            Some(terminal) => terminal.scroll_down(reply, count),
            None => Action::Finished(false),
        }
    }

    /// Resizes the terminal to a width and a height, one step at a time.
    pub fn set_size(&self, reply: Reply, width: i16, height: i16) -> (action: Action)
        ensures
            action == match self.terminal {
                Some(backend) => backend.set_size_spec(reply, width, height),
                None => Action::Finished(false),
            },
    {
        match &self.terminal {
            Some(terminal) => terminal.set_size(reply, width, height),
            None => Action::Finished(false),
        }
    }
}

/// The terminal on a backend that the selector has resolved.
pub fn terminal(backend: Backend, platform: Platform) -> (terminal: Box<Terminal>)
    ensures
        terminal.terminal == match backend {
            Backend::Ansi => Some(AnsiTerminal { platform }),
            Backend::WinApi => None,
        },
{
    Box::new(Terminal::on(backend, platform))
}

} // verus!
