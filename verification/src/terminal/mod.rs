//! Actions on the terminal as a whole: clearing, scrolling and resizing.
//!
//! As with the cursor, every action is a small state machine that is begun
//! with [`Reply::Start`].

pub mod ansi_terminal;
pub mod terminal;

use crate::kernel::{Action, Query, Reply};
use vstd::prelude::*;

verus! {

/// The regions of the screen that can be cleared.
#[derive(Clone, Copy, Debug, PartialEq, Eq)]
pub enum ClearType {
    /// The entire screen.
    All,
    /// From the cursor to the end of the screen.
    FromCursorDown,
    /// From the start of the screen to the cursor.
    FromCursorUp,
    /// The line the cursor is on.
    CurrentLine,
    /// From the cursor to the end of its line.
    UntilNewLine,
}

/// What a backend for the terminal can do.
pub trait ITerminal {
    /// One step of clearing a region.
    spec fn clear_spec(&self, reply: Reply, clear_type: ClearType) -> Action;

    /// One step of asking for the size of the terminal.
    spec fn terminal_size_spec(&self, reply: Reply) -> Query;

    /// One step of scrolling up.
    spec fn scroll_up_spec(&self, reply: Reply, count: i16) -> Action;

    /// One step of scrolling down.
    spec fn scroll_down_spec(&self, reply: Reply, count: i16) -> Action;

    /// One step of resizing.
    spec fn set_size_spec(&self, reply: Reply, width: i16, height: i16) -> Action;

    /// Clears a region of the screen, one step at a time.
    fn clear(&self, reply: Reply, clear_type: ClearType) -> (action: Action)
        ensures
            action == self.clear_spec(reply, clear_type),
    ;

    /// Asks for the columns and rows of the terminal, one step at a time.
    fn terminal_size(&self, reply: Reply) -> (query: Query)
        ensures
            query == self.terminal_size_spec(reply),
    ;

    /// Scrolls `count` lines up, one step at a time.
    fn scroll_up(&self, reply: Reply, count: i16) -> (action: Action)
        ensures
            action == self.scroll_up_spec(reply, count),
    ;

    /// Scrolls `count` lines down, one step at a time.
    fn scroll_down(&self, reply: Reply, count: i16) -> (action: Action)
        ensures
            action == self.scroll_down_spec(reply, count),
    ;

    /// Resizes the terminal to a width and a height, one step at a time.
    fn set_size(&self, reply: Reply, width: i16, height: i16) -> (action: Action)
        ensures
            action == self.set_size_spec(reply, width, height),
    ;
}

} // verus!
