//! The cursor backend that writes escape sequences.

use crate::cursor::ITerminalCursor;
use crate::kernel::unix_kernel::position::{
    cursor_report,
    lemma_report_says_the_position,
    parsed,
    report_text,
};
use crate::kernel::{Action, Query, Reply, Request};
use crate::shared::functions::{cursor_position_spec, get_cursor_position, Platform};
use crate::shared::sequence::{emit, emitted, Sequence};
use vstd::prelude::*;

verus! {

/// The sequence that places the cursor at column `x`, row `y`, both counted
/// from zero. The terminal counts rows and columns from one, and names the
/// row first.
pub open spec fn goto_sequence(x: u16, y: u16) -> Sequence {
    Sequence::CursorPosition { row: (y + 1) as u32, column: (x + 1) as u32 }
}

/// The cursor of a terminal that acts on escape sequences.
#[derive(Clone, Copy, Debug, PartialEq, Eq)]
pub struct AnsiCursor {
    /// The platform, which decides how the position of the cursor is asked for.
    pub platform: Platform,
}

impl AnsiCursor {
    /// The backend on a platform.
    pub fn new(platform: Platform) -> (cursor: AnsiCursor)
        ensures
            cursor.platform == platform,
    {
        AnsiCursor { platform }
    }
}

impl ITerminalCursor for AnsiCursor {
    open spec fn goto_spec(&self, reply: Reply, x: u16, y: u16) -> Action {
        emitted(reply, goto_sequence(x, y))
    }

    open spec fn pos_spec(&self, reply: Reply) -> Query {
        cursor_position_spec(self.platform, reply)
    }

    open spec fn move_up_spec(&self, reply: Reply, count: u16) -> Action {
        emitted(reply, Sequence::CursorUp(count))
    }

    open spec fn move_right_spec(&self, reply: Reply, count: u16) -> Action {
        emitted(reply, Sequence::CursorForward(count))
    }

    open spec fn move_down_spec(&self, reply: Reply, count: u16) -> Action {
        emitted(reply, Sequence::CursorDown(count))
    }

    open spec fn move_left_spec(&self, reply: Reply, count: u16) -> Action {
        emitted(reply, Sequence::CursorBack(count))
    }

    /// The terminal is told to remember the position; the process remembers
    /// nothing of its own.
    open spec fn save_position_spec(&self, saved: (u16, u16), reply: Reply) -> (
        (u16, u16),
        Action,
    ) {
        (saved, emitted(reply, Sequence::SaveCursor))
    }

    open spec fn reset_position_spec(&self, saved: (u16, u16), reply: Reply) -> Action {
        emitted(reply, Sequence::RestoreCursor)
    }

    fn goto(&self, reply: Reply, x: u16, y: u16) -> (action: Action) {
        emit(reply, Sequence::CursorPosition { row: y as u32 + 1, column: x as u32 + 1 })
    }

    fn pos(&self, reply: Reply) -> (query: Query) {
        get_cursor_position(self.platform, reply)
    }

    fn move_up(&self, reply: Reply, count: u16) -> (action: Action) {
        emit(reply, Sequence::CursorUp(count))
    }

    fn move_right(&self, reply: Reply, count: u16) -> (action: Action) {
        emit(reply, Sequence::CursorForward(count))
    }

    fn move_down(&self, reply: Reply, count: u16) -> (action: Action) {
        emit(reply, Sequence::CursorDown(count))
    }

    fn move_left(&self, reply: Reply, count: u16) -> (action: Action) {
        emit(reply, Sequence::CursorBack(count))
    }

    fn save_position(&self, saved: &mut (u16, u16), reply: Reply) -> (action: Action) {
        emit(reply, Sequence::SaveCursor)
    }

    fn reset_position(&self, saved: &(u16, u16), reply: Reply) -> (action: Action) {
        emit(reply, Sequence::RestoreCursor)
    }
}

/// Going to a position and then asking where the cursor is gives that
/// position, on a terminal that keeps to the protocol: one that puts its cursor
/// at the row and the column that the sequence names, and reports the row and
/// the column that its cursor is at. The sequence that `goto` writes names row
/// `y + 1` and column `x + 1`, and the report of that row and column says
/// `(x, y)`, which is then what `pos` gives.
pub proof fn lemma_goto_then_report(cursor: AnsiCursor, x: u16, y: u16)
    requires
        cursor.platform is Unix,
    ensures
        cursor.goto_spec(Reply::Start, x, y) == Action::Call(
            Request::Write(goto_sequence(x, y)),
        ),
        parsed(report_text((y + 1) as nat, (x + 1) as nat)) == Some((x, y)),
        cursor.pos_spec(
            Reply::CursorPosition(parsed(report_text((y + 1) as nat, (x + 1) as nat))),
        ) == Query::Found(x, y),
{
    lemma_report_says_the_position(x, y);
    assert(cursor_report(x, y) == report_text((y + 1) as nat, (x + 1) as nat));
}

/// Moving up and moving down by a count write the sequence for moving up and
/// the sequence for moving down, each with that count unchanged; and so do
/// moving left and moving right.
pub proof fn lemma_moves_write_the_count(cursor: AnsiCursor, count: u16)
    ensures
        cursor.move_up_spec(Reply::Start, count) == Action::Call(
            Request::Write(Sequence::CursorUp(count)),
        ),
        cursor.move_down_spec(Reply::Start, count) == Action::Call(
            Request::Write(Sequence::CursorDown(count)),
        ),
        cursor.move_left_spec(Reply::Start, count) == Action::Call(
            Request::Write(Sequence::CursorBack(count)),
        ),
        cursor.move_right_spec(Reply::Start, count) == Action::Call(
            Request::Write(Sequence::CursorForward(count)),
        ),
{
}

/// The terminal is told to remember the position of the cursor by
/// `save_position` and by no other action of any cursor, whatever reply the
/// action is handed; and it is told to go back to that position by
/// `reset_position`. What the process itself remembers is left as it is.
pub proof fn lemma_only_save_position_saves(
    saving: AnsiCursor,
    moving: AnsiCursor,
    resetting: AnsiCursor,
    saved: (u16, u16),
    reply: Reply,
    x: u16,
    y: u16,
    count: u16,
)
    ensures
        saving.save_position_spec(saved, Reply::Start) == (
            saved,
            Action::Call(Request::Write(Sequence::SaveCursor)),
        ),
        resetting.reset_position_spec(saved, Reply::Start) == Action::Call(
            Request::Write(Sequence::RestoreCursor),
        ),
        moving.goto_spec(reply, x, y) != Action::Call(Request::Write(Sequence::SaveCursor)),
        moving.move_up_spec(reply, count) != Action::Call(Request::Write(Sequence::SaveCursor)),
        moving.move_down_spec(reply, count) != Action::Call(Request::Write(Sequence::SaveCursor)),
        moving.move_left_spec(reply, count) != Action::Call(Request::Write(Sequence::SaveCursor)),
        moving.move_right_spec(reply, count) != Action::Call(Request::Write(Sequence::SaveCursor)),
        moving.reset_position_spec(saved, reply) != Action::Call(
            Request::Write(Sequence::SaveCursor),
        ),
        !(moving.pos_spec(reply) matches Query::Call(Request::Write(_))),
{
}

} // verus!
