//! Actions on the cursor of the terminal: placing it, moving it, asking where
//! it is, and remembering a position to come back to.
//!
//! Positions count from zero: the first column of the first row is `(0, 0)`.
//!
//! Every action is a small state machine. It is begun with [`Reply::Start`],
//! and each [`Action::Call`] that it answers with is to be made and its reply
//! handed back, until the action has finished.

pub mod ansi_cursor;
pub mod cursor;
pub mod winapi_cursor;

use crate::kernel::{Action, Query, Reply};
use vstd::prelude::*;

verus! {

/// What a backend for the cursor can do.
pub trait ITerminalCursor {
    /// One step of going to column `x`, row `y`.
    spec fn goto_spec(&self, reply: Reply, x: u16, y: u16) -> Action;

    /// One step of asking where the cursor is.
    spec fn pos_spec(&self, reply: Reply) -> Query;

    /// One step of moving the cursor up.
    spec fn move_up_spec(&self, reply: Reply, count: u16) -> Action;

    /// One step of moving the cursor right.
    spec fn move_right_spec(&self, reply: Reply, count: u16) -> Action;

    /// One step of moving the cursor down.
    spec fn move_down_spec(&self, reply: Reply, count: u16) -> Action;

    /// One step of moving the cursor left.
    spec fn move_left_spec(&self, reply: Reply, count: u16) -> Action;

    /// One step of remembering where the cursor is: the position that the
    /// process remembers afterwards, and the action.
    spec fn save_position_spec(&self, saved: (u16, u16), reply: Reply) -> ((u16, u16), Action);

    /// One step of going back to the position that was remembered.
    spec fn reset_position_spec(&self, saved: (u16, u16), reply: Reply) -> Action;

    /// Goes to column `x`, row `y`, one step at a time.
    fn goto(&self, reply: Reply, x: u16, y: u16) -> (action: Action)
        ensures
            action == self.goto_spec(reply, x, y),
    ;

    /// Asks where the cursor is, one step at a time.
    fn pos(&self, reply: Reply) -> (query: Query)
        ensures
            query == self.pos_spec(reply),
    ;

    /// Moves the cursor `count` rows up, one step at a time.
    fn move_up(&self, reply: Reply, count: u16) -> (action: Action)
        ensures
            action == self.move_up_spec(reply, count),
    ;

    /// Moves the cursor `count` columns to the right, one step at a time.
    fn move_right(&self, reply: Reply, count: u16) -> (action: Action)
        ensures
            action == self.move_right_spec(reply, count),
    ;

    /// Moves the cursor `count` rows down, one step at a time.
    fn move_down(&self, reply: Reply, count: u16) -> (action: Action)
        ensures
            action == self.move_down_spec(reply, count),
    ;

    /// Moves the cursor `count` columns to the left, one step at a time.
    fn move_left(&self, reply: Reply, count: u16) -> (action: Action)
        ensures
            action == self.move_left_spec(reply, count),
    ;

    /// Remembers where the cursor is, one step at a time. The position is
    /// remembered for the process, in `saved`, not for this value.
    fn save_position(&self, saved: &mut (u16, u16), reply: Reply) -> (action: Action)
        ensures
            (*final(saved), action) == self.save_position_spec(*old(saved), reply),
    ;

    /// Goes back to the position that was remembered, one step at a time.
    fn reset_position(&self, saved: &(u16, u16), reply: Reply) -> (action: Action)
        ensures
            action == self.reset_position_spec(*saved, reply),
    ;
}

} // verus!
