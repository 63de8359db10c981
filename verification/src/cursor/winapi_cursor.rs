//! The cursor backend that calls the native console.

use crate::cursor::ITerminalCursor;
use crate::kernel::windows_kernel::kernel::{cursor_placed, cursor_position_request, place_cursor};
use crate::kernel::{Action, Fatal, Query, Reply, Request};
use crate::shared::functions::{
    cursor_position,
    cursor_position_spec,
    get_cursor_position,
    position_in,
    Platform,
};
use vstd::prelude::*;

verus! {

/// The action that places the cursor, or the fatal condition when the
/// position is out of range.
pub open spec fn placing(x: int, y: int) -> Action {
    match cursor_position_request(x, y) {
        Ok(request) => Action::Call(request),
        Err(fatal) => Action::Fatal(fatal),
    }
}

/// One step of placing the cursor at a position that is known beforehand: the
/// position is checked and the console is called; when the console refuses,
/// the condition is fatal. A reply that is no answer to the call ends the
/// action without success.
pub open spec fn going_to(reply: Reply, x: int, y: int) -> Action {
    match reply {
        Reply::Start => placing(x, y),
        Reply::Done(ok) => cursor_placed(ok),
        _ => Action::Finished(false),
    }
}

/// One step of moving the cursor by `dx` columns and `dy` rows: the console
/// reports where the cursor is, and the cursor is placed that far from there.
/// A position off the console, on either side, is fatal and is never wrapped
/// round to the other side. Without a report the condition is fatal too.
pub open spec fn moving(reply: Reply, dx: int, dy: int) -> Action {
    match reply {
        Reply::Start => Action::Call(Request::GetConsoleScreenBufferInfo),
        Reply::ScreenBufferInfo(Some(info)) => placing(
            cursor_position(info).0 + dx,
            cursor_position(info).1 + dy,
        ),
        Reply::ScreenBufferInfo(None) => Action::Fatal(Fatal::ScreenBufferInfo),
        Reply::Done(ok) => cursor_placed(ok),
        _ => Action::Finished(false),
    }
}

fn place(x: i32, y: i32) -> (action: Action)
    ensures
        action == placing(x as int, y as int),
{
    match place_cursor(x, y) {
        Ok(request) => Action::Call(request),
        Err(fatal) => Action::Fatal(fatal),
    }
}

fn placed(ok: bool) -> (action: Action)
    ensures
        action == cursor_placed(ok),
{
    if ok {
        Action::Finished(true)
    } else {
        Action::Fatal(Fatal::CursorPosition)
    }
}

fn go_to(reply: Reply, x: u16, y: u16) -> (action: Action)
    ensures
        action == going_to(reply, x as int, y as int),
{
    match reply {
        Reply::Start => place(x as i32, y as i32),
        Reply::Done(ok) => placed(ok),
        _ => Action::Finished(false),
    }
}

fn move_by(reply: Reply, dx: i32, dy: i32) -> (action: Action)
    requires
        -65535 <= dx <= 65535,
        -65535 <= dy <= 65535,
    ensures
        action == moving(reply, dx as int, dy as int),
{
    match reply {
        Reply::Start => Action::Call(Request::GetConsoleScreenBufferInfo),
        Reply::ScreenBufferInfo(Some(info)) => {
            let (x, y) = position_in(&info);
            place(x as i32 + dx, y as i32 + dy)
        },
        Reply::ScreenBufferInfo(None) => Action::Fatal(Fatal::ScreenBufferInfo),
        Reply::Done(ok) => placed(ok),
        _ => Action::Finished(false),
    }
}

/// The cursor of the native console.
#[derive(Clone, Copy, Debug, PartialEq, Eq)]
pub struct WinApiCursor;

impl WinApiCursor {
    /// The backend.
    pub fn new() -> (cursor: WinApiCursor)
        ensures
            cursor == WinApiCursor,
    {
        WinApiCursor {  }
    }
}

impl ITerminalCursor for WinApiCursor {
    open spec fn goto_spec(&self, reply: Reply, x: u16, y: u16) -> Action {
        going_to(reply, x as int, y as int)
    }

    open spec fn pos_spec(&self, reply: Reply) -> Query {
        cursor_position_spec(Platform::Windows, reply)
    }

    open spec fn move_up_spec(&self, reply: Reply, count: u16) -> Action {
        moving(reply, 0, -count)
    }

    open spec fn move_right_spec(&self, reply: Reply, count: u16) -> Action {
        moving(reply, count as int, 0)
    }

    open spec fn move_down_spec(&self, reply: Reply, count: u16) -> Action {
        moving(reply, 0, count as int)
    }

    open spec fn move_left_spec(&self, reply: Reply, count: u16) -> Action {
        moving(reply, -count, 0)
    }

    /// The console reports where the cursor is, and the process remembers
    /// that position. Without a report the condition is fatal and what was
    /// remembered before stays.
    open spec fn save_position_spec(&self, saved: (u16, u16), reply: Reply) -> (
        (u16, u16),
        Action,
    ) {
        match reply {
            Reply::Start => (saved, Action::Call(Request::GetConsoleScreenBufferInfo)),
            Reply::ScreenBufferInfo(Some(info)) => (cursor_position(info), Action::Finished(true)),
            Reply::ScreenBufferInfo(None) => (saved, Action::Fatal(Fatal::ScreenBufferInfo)),
            _ => (saved, Action::Finished(false)),
        }
    }

    open spec fn reset_position_spec(&self, saved: (u16, u16), reply: Reply) -> Action {
        going_to(reply, saved.0 as int, saved.1 as int)
    }

    fn goto(&self, reply: Reply, x: u16, y: u16) -> (action: Action) {
        go_to(reply, x, y)
    }

    fn pos(&self, reply: Reply) -> (query: Query) {
        get_cursor_position(Platform::Windows, reply)
    }

    fn move_up(&self, reply: Reply, count: u16) -> (action: Action) {
        move_by(reply, 0, 0 - count as i32)
    }

    fn move_right(&self, reply: Reply, count: u16) -> (action: Action) {
        move_by(reply, count as i32, 0)
    }

    fn move_down(&self, reply: Reply, count: u16) -> (action: Action) {
        move_by(reply, 0, count as i32)
    }

    fn move_left(&self, reply: Reply, count: u16) -> (action: Action) {
        move_by(reply, 0 - count as i32, 0)
    }

    fn save_position(&self, saved: &mut (u16, u16), reply: Reply) -> (action: Action) {
        match reply {
            Reply::Start => Action::Call(Request::GetConsoleScreenBufferInfo),
            Reply::ScreenBufferInfo(Some(info)) => {
                *saved = position_in(&info);
                Action::Finished(true)
            },
            Reply::ScreenBufferInfo(None) => Action::Fatal(Fatal::ScreenBufferInfo),
            _ => Action::Finished(false),
        }
    }

    fn reset_position(&self, saved: &(u16, u16), reply: Reply) -> (action: Action) {
        go_to(reply, saved.0, saved.1)
    }
}

} // verus!
