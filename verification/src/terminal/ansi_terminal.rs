//! The terminal backend that writes escape sequences.

use crate::kernel::{Action, Query, Reply};
use crate::shared::functions::{get_terminal_size, terminal_size_spec, Platform};
use crate::shared::sequence::{emit, emitted, Sequence};
use crate::terminal::{ClearType, ITerminal};
use vstd::prelude::*;

verus! {

/// A terminal that acts on escape sequences.
#[derive(Clone, Copy, Debug, PartialEq, Eq)]
pub struct AnsiTerminal {
    /// The platform, which decides how the size of the terminal is asked for.
    pub platform: Platform,
}

impl AnsiTerminal {
    /// The backend on a platform.
    pub fn new(platform: Platform) -> (terminal: AnsiTerminal)
        ensures
            terminal.platform == platform,
    {
        AnsiTerminal { platform }
    }
}

impl ITerminal for AnsiTerminal {
    open spec fn clear_spec(&self, reply: Reply, clear_type: ClearType) -> Action {
        emitted(reply, Sequence::Clear(clear_type))
    }

    open spec fn terminal_size_spec(&self, reply: Reply) -> Query {
        terminal_size_spec(self.platform, reply)
    }

    open spec fn scroll_up_spec(&self, reply: Reply, count: i16) -> Action {
        emitted(reply, Sequence::ScrollUp(count))
    }

    open spec fn scroll_down_spec(&self, reply: Reply, count: i16) -> Action {
        emitted(reply, Sequence::ScrollDown(count))
    }

    open spec fn set_size_spec(&self, reply: Reply, width: i16, height: i16) -> Action {
        emitted(reply, Sequence::Resize { width, height })
    }

    fn clear(&self, reply: Reply, clear_type: ClearType) -> (action: Action) {
        match clear_type {
            ClearType::All => emit(reply, Sequence::Clear(ClearType::All)),
            ClearType::FromCursorDown => emit(reply, Sequence::Clear(ClearType::FromCursorDown)),
            ClearType::FromCursorUp => emit(reply, Sequence::Clear(ClearType::FromCursorUp)),
            ClearType::CurrentLine => emit(reply, Sequence::Clear(ClearType::CurrentLine)),
            ClearType::UntilNewLine => emit(reply, Sequence::Clear(ClearType::UntilNewLine)),
        }
    }

    fn terminal_size(&self, reply: Reply) -> (query: Query) {
        get_terminal_size(self.platform, reply)
    }

    fn scroll_up(&self, reply: Reply, count: i16) -> (action: Action) {
        emit(reply, Sequence::ScrollUp(count))
    }

    fn scroll_down(&self, reply: Reply, count: i16) -> (action: Action) {
        emit(reply, Sequence::ScrollDown(count))
    }

    fn set_size(&self, reply: Reply, width: i16, height: i16) -> (action: Action) {
        emit(reply, Sequence::Resize { width, height })
    }
}

} // verus!
