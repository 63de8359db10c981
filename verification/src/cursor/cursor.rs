//! The cursor as the users of the library see it: one type that stands for
//! whichever backend was chosen, and does what that backend does.

use crate::cursor::ansi_cursor::AnsiCursor;
use crate::cursor::winapi_cursor::WinApiCursor;
use crate::cursor::ITerminalCursor;
use crate::kernel::windows_kernel::ansi_support::CapabilityState;
use crate::kernel::windows_kernel::kernel::{console_after, ScreenBufferInfo};
use crate::kernel::{Action, Coord, Fatal, Query, Reply, Request};
use crate::shared::functions::{chosen_backend, cursor_position, get_module, Backend, Platform};
use vstd::prelude::*;

verus! {

/// One of the two backends for the cursor.
#[derive(Clone, Copy, Debug, PartialEq, Eq)]
pub enum CursorBackend {
    Ansi(AnsiCursor),
    WinApi(WinApiCursor),
}

impl ITerminalCursor for CursorBackend {
    open spec fn goto_spec(&self, reply: Reply, x: u16, y: u16) -> Action {
        match self {
            CursorBackend::Ansi(cursor) => cursor.goto_spec(reply, x, y),
            CursorBackend::WinApi(cursor) => cursor.goto_spec(reply, x, y),
        }
    }

    open spec fn pos_spec(&self, reply: Reply) -> Query {
        match self {
            CursorBackend::Ansi(cursor) => cursor.pos_spec(reply),
            CursorBackend::WinApi(cursor) => cursor.pos_spec(reply),
        }
    }

    open spec fn move_up_spec(&self, reply: Reply, count: u16) -> Action {
        match self {
            CursorBackend::Ansi(cursor) => cursor.move_up_spec(reply, count),
            CursorBackend::WinApi(cursor) => cursor.move_up_spec(reply, count),
        }
    }

    open spec fn move_right_spec(&self, reply: Reply, count: u16) -> Action {
        match self {
            CursorBackend::Ansi(cursor) => cursor.move_right_spec(reply, count),
            CursorBackend::WinApi(cursor) => cursor.move_right_spec(reply, count),
        }
    }

    open spec fn move_down_spec(&self, reply: Reply, count: u16) -> Action {
        match self {
            CursorBackend::Ansi(cursor) => cursor.move_down_spec(reply, count),
            CursorBackend::WinApi(cursor) => cursor.move_down_spec(reply, count),
        }
    }

    open spec fn move_left_spec(&self, reply: Reply, count: u16) -> Action {
        match self {
            CursorBackend::Ansi(cursor) => cursor.move_left_spec(reply, count),
            CursorBackend::WinApi(cursor) => cursor.move_left_spec(reply, count),
        }
    }

    open spec fn save_position_spec(&self, saved: (u16, u16), reply: Reply) -> (
        (u16, u16),
        Action,
    ) {
        match self {
            CursorBackend::Ansi(cursor) => cursor.save_position_spec(saved, reply),
            CursorBackend::WinApi(cursor) => cursor.save_position_spec(saved, reply),
        }
    }

    open spec fn reset_position_spec(&self, saved: (u16, u16), reply: Reply) -> Action {
        match self {
            CursorBackend::Ansi(cursor) => cursor.reset_position_spec(saved, reply),
            CursorBackend::WinApi(cursor) => cursor.reset_position_spec(saved, reply),
        }
    }

    fn goto(&self, reply: Reply, x: u16, y: u16) -> (action: Action) {
        match self {
            CursorBackend::Ansi(cursor) => cursor.goto(reply, x, y),
            CursorBackend::WinApi(cursor) => cursor.goto(reply, x, y),
        }
    }

    fn pos(&self, reply: Reply) -> (query: Query) {
        match self {
            CursorBackend::Ansi(cursor) => cursor.pos(reply),
            CursorBackend::WinApi(cursor) => cursor.pos(reply),
        }
    }

    fn move_up(&self, reply: Reply, count: u16) -> (action: Action) {
        match self {
            CursorBackend::Ansi(cursor) => cursor.move_up(reply, count),
            CursorBackend::WinApi(cursor) => cursor.move_up(reply, count),
        }
    }

    fn move_right(&self, reply: Reply, count: u16) -> (action: Action) {
        match self {
            CursorBackend::Ansi(cursor) => cursor.move_right(reply, count),
            CursorBackend::WinApi(cursor) => cursor.move_right(reply, count),
        }
    }

    fn move_down(&self, reply: Reply, count: u16) -> (action: Action) {
        match self {
            CursorBackend::Ansi(cursor) => cursor.move_down(reply, count),
            CursorBackend::WinApi(cursor) => cursor.move_down(reply, count),
        }
    }

    fn move_left(&self, reply: Reply, count: u16) -> (action: Action) {
        match self {
            CursorBackend::Ansi(cursor) => cursor.move_left(reply, count),
            CursorBackend::WinApi(cursor) => cursor.move_left(reply, count),
        }
    }

    fn save_position(&self, saved: &mut (u16, u16), reply: Reply) -> (action: Action) {
        match self {
            CursorBackend::Ansi(cursor) => cursor.save_position(saved, reply),
            CursorBackend::WinApi(cursor) => cursor.save_position(saved, reply),
        }
    }

    fn reset_position(&self, saved: &(u16, u16), reply: Reply) -> (action: Action) {
        match self {
            CursorBackend::Ansi(cursor) => cursor.reset_position(saved, reply),
            CursorBackend::WinApi(cursor) => cursor.reset_position(saved, reply),
        }
    }
}

/// The cursor of the terminal, on whichever backend was chosen for it.
#[derive(Clone, Copy, Debug, PartialEq, Eq)]
pub struct TerminalCursor {
    /// The backend. Without one every action finishes at once, having done
    /// nothing, and the cursor is reported at the origin.
    pub terminal_cursor: Option<CursorBackend>,
}

/// The backend for the cursor that fits the platform and what the detection
/// recorded.
pub open spec fn cursor_backend(platform: Platform, support: CapabilityState) -> CursorBackend {
    if chosen_backend(platform, support) is WinApi {
        CursorBackend::WinApi(WinApiCursor)
    } else {
        CursorBackend::Ansi(AnsiCursor { platform })
    }
}

impl TerminalCursor {
    /// The cursor on the backend that fits the platform and what the
    /// detection recorded.
    pub fn new(platform: Platform, support: &CapabilityState) -> (cursor: TerminalCursor)
        ensures
            cursor.terminal_cursor == Some(cursor_backend(platform, *support)),
    {
        let cursor = get_module::<CursorBackend>(
            CursorBackend::WinApi(WinApiCursor::new()),
            CursorBackend::Ansi(AnsiCursor::new(platform)),
            platform,
            support,
        );
        TerminalCursor { terminal_cursor: cursor }
    }

    /// The cursor on a backend that the selector has resolved.
    pub fn on(backend: Backend, platform: Platform) -> (cursor: TerminalCursor)
        ensures
            cursor.terminal_cursor == Some(
                match backend {
                    Backend::WinApi => CursorBackend::WinApi(WinApiCursor),
                    Backend::Ansi => CursorBackend::Ansi(AnsiCursor { platform }),
                },
            ),
    {
        match backend {
            Backend::WinApi => TerminalCursor {
                terminal_cursor: Some(CursorBackend::WinApi(WinApiCursor::new())),
            },
            Backend::Ansi => TerminalCursor {
                terminal_cursor: Some(CursorBackend::Ansi(AnsiCursor::new(platform))),
            },
        }
    }

    /// One step of going to a position: what the backend does, and without
    /// a backend nothing.
    pub open spec fn goto_spec(self, reply: Reply, x: u16, y: u16) -> Action {
        match self.terminal_cursor {
            Some(backend) => backend.goto_spec(reply, x, y),
            None => Action::Finished(false),
        }
    }

    /// One step of asking where the cursor is: what the backend does, and
    /// without a backend the origin.
    pub open spec fn pos_spec(self, reply: Reply) -> Query {
        match self.terminal_cursor {
            Some(backend) => backend.pos_spec(reply),
            None => Query::Found(0, 0),
        }
    }

    /// One step of moving up: what the backend does, and without a backend
    /// nothing.
    pub open spec fn move_up_spec(self, reply: Reply, count: u16) -> Action {
        match self.terminal_cursor {
            Some(backend) => backend.move_up_spec(reply, count),
            None => Action::Finished(false),
        }
    }

    /// One step of moving right: what the backend does, and without a
    /// backend nothing.
    pub open spec fn move_right_spec(self, reply: Reply, count: u16) -> Action {
        match self.terminal_cursor {
            Some(backend) => backend.move_right_spec(reply, count),
            None => Action::Finished(false),
        }
    }

    /// One step of moving down: what the backend does, and without a backend
    /// nothing.
    pub open spec fn move_down_spec(self, reply: Reply, count: u16) -> Action {
        match self.terminal_cursor {
            Some(backend) => backend.move_down_spec(reply, count),
            None => Action::Finished(false),
        }
    }

    /// One step of moving left: what the backend does, and without a backend
    /// nothing.
    pub open spec fn move_left_spec(self, reply: Reply, count: u16) -> Action {
        match self.terminal_cursor {
            Some(backend) => backend.move_left_spec(reply, count),
            None => Action::Finished(false),
        }
    }

    /// One step of remembering the position: what the backend does, and
    /// without a backend nothing.
    pub open spec fn save_position_spec(self, saved: (u16, u16), reply: Reply) -> (
        (u16, u16),
        Action,
    ) {
        match self.terminal_cursor {
            Some(backend) => backend.save_position_spec(saved, reply),
            None => (saved, Action::Finished(false)),
        }
    }

    /// One step of going back to the remembered position: what the backend
    /// does, and without a backend nothing.
    pub open spec fn reset_position_spec(self, saved: (u16, u16), reply: Reply) -> Action {
        match self.terminal_cursor {
            Some(backend) => backend.reset_position_spec(saved, reply),
            None => Action::Finished(false),
        }
    }

    /// Goes to column `x`, row `y`, both counted from zero, one step at a
    /// time.
    pub fn goto(&self, reply: Reply, x: u16, y: u16) -> (action: Action)
        ensures
            action == self.goto_spec(reply, x, y),
    {
        match &self.terminal_cursor {
            Some(terminal_cursor) => terminal_cursor.goto(reply, x, y),
            None => Action::Finished(false),
        }
    }

    /// Asks where the cursor is, one step at a time. Without a backend the
    /// answer is the origin.
    pub fn pos(&self, reply: Reply) -> (query: Query)
        ensures
            query == self.pos_spec(reply),
    {
        match &self.terminal_cursor {
            Some(terminal_cursor) => terminal_cursor.pos(reply),
            None => Query::Found(0, 0),
        }
    }

    /// Moves the cursor `count` rows up, one step at a time.
    pub fn move_up(&self, reply: Reply, count: u16) -> (action: Action)
        ensures
            action == self.move_up_spec(reply, count),
    {
        match &self.terminal_cursor {
            Some(terminal_cursor) => terminal_cursor.move_up(reply, count),
            None => Action::Finished(false),
        }
    }

    /// Moves the cursor `count` columns to the right, one step at a time.
    pub fn move_right(&self, reply: Reply, count: u16) -> (action: Action)
        ensures
            action == self.move_right_spec(reply, count),
    {
        match &self.terminal_cursor {
            Some(terminal_cursor) => terminal_cursor.move_right(reply, count),
            None => Action::Finished(false),
        }
    }

    /// Moves the cursor `count` rows down, one step at a time.
    pub fn move_down(&self, reply: Reply, count: u16) -> (action: Action)
        ensures
            action == self.move_down_spec(reply, count),
    {
        match &self.terminal_cursor {
            Some(terminal_cursor) => terminal_cursor.move_down(reply, count),
            None => Action::Finished(false),
        }
    }

    /// Moves the cursor `count` columns to the left, one step at a time.
    pub fn move_left(&self, reply: Reply, count: u16) -> (action: Action)
        ensures
            action == self.move_left_spec(reply, count),
    {
        match &self.terminal_cursor {
            Some(terminal_cursor) => terminal_cursor.move_left(reply, count),
            None => Action::Finished(false),
        }
    }

    /// Remembers where the cursor is, one step at a time. The position is
    /// remembered for the process, in `saved`, and any cursor can go back to
    /// it.
    pub fn save_position(&self, saved: &mut (u16, u16), reply: Reply) -> (action: Action)
        ensures
            (*final(saved), action) == self.save_position_spec(*old(saved), reply),
    {
        match &self.terminal_cursor {
            Some(terminal_cursor) => terminal_cursor.save_position(saved, reply),
            None => Action::Finished(false),
        }
    }

    /// Goes back to the position that was remembered, one step at a time.
    pub fn reset_position(&self, saved: &(u16, u16), reply: Reply) -> (action: Action)
        ensures
            action == self.reset_position_spec(*saved, reply),
    {
        match &self.terminal_cursor {
            Some(terminal_cursor) => terminal_cursor.reset_position(saved, reply),
            None => Action::Finished(false),
        }
    }
}

/// The cursor on the backend that fits the platform and what the detection
/// recorded.
pub fn cursor(platform: Platform, support: &CapabilityState) -> (cursor: Box<TerminalCursor>)
    ensures
        cursor.terminal_cursor == Some(cursor_backend(platform, *support)),
{
    Box::new(TerminalCursor::new(platform, support))
}

/// The cursor on the native console.
pub open spec fn native_cursor() -> TerminalCursor {
    TerminalCursor { terminal_cursor: Some(CursorBackend::WinApi(WinApiCursor)) }
}

/// A position that the console accepts for its cursor.
pub open spec fn on_console(position: Coord) -> bool {
    0 <= position.x < i16::MAX && 0 <= position.y < i16::MAX
}

/// Going to a position on the console and then asking where the cursor is
/// gives that position. The call that `goto` makes places the cursor at
/// `(x, y)`, and `pos` reads `(x, y)` off the report of a console on which
/// that call has succeeded.
pub proof fn lemma_goto_then_pos(info: ScreenBufferInfo, x: u16, y: u16)
    requires
        x < i16::MAX,
        y < i16::MAX,
    ensures
        native_cursor().goto_spec(Reply::Start, x, y) == Action::Call(
            Request::SetConsoleCursorPosition(Coord { x: x as i16, y: y as i16 }),
        ),
        native_cursor().pos_spec(
            Reply::ScreenBufferInfo(
                Some(
                    console_after(
                        info,
                        Request::SetConsoleCursorPosition(Coord { x: x as i16, y: y as i16 }),
                    ),
                ),
            ),
        ) == Query::Found(x, y),
{
}

/// Moving up by `count` rows and then down by as many puts the cursor back
/// where it was, as long as the cursor is at least `count` rows from the top.
pub proof fn lemma_move_up_then_down(info: ScreenBufferInfo, count: u16)
    requires
        on_console(info.cursor_position),
        count <= info.cursor_position.y,
    ensures
        ({
            let up = native_cursor().move_up_spec(Reply::ScreenBufferInfo(Some(info)), count);
            &&& up matches Action::Call(first)
            &&& console_after(info, first).cursor_position == (Coord {
                x: info.cursor_position.x,
                y: (info.cursor_position.y - count) as i16,
            })
            &&& native_cursor().move_down_spec(
                Reply::ScreenBufferInfo(Some(console_after(info, first))),
                count,
            ) matches Action::Call(second)
            &&& console_after(console_after(info, first), second) == info
        }),
{
}

/// Moving up from nearer the top than `count` rows is fatal. The row is not
/// wrapped round to a large one, and the console is not called.
pub proof fn lemma_move_up_past_the_top(info: ScreenBufferInfo, count: u16)
    requires
        on_console(info.cursor_position),
        info.cursor_position.y < count,
    ensures
        native_cursor().move_up_spec(Reply::ScreenBufferInfo(Some(info)), count) == Action::Fatal(
            Fatal::YOutOfRange((info.cursor_position.y - count) as i32),
        ),
{
}

/// Remembering a position and going back to it later places the cursor
/// exactly where it was when it was remembered, wherever the cursor is by
/// then and whatever the process remembered before; and it does so whether
/// the cursor that goes back is the one that remembered or another one.
pub proof fn lemma_save_then_reset(
    saving: TerminalCursor,
    resetting: TerminalCursor,
    before: (u16, u16),
    info: ScreenBufferInfo,
    later: ScreenBufferInfo,
)
    requires
        saving.terminal_cursor matches Some(CursorBackend::WinApi(_)),
        resetting.terminal_cursor matches Some(CursorBackend::WinApi(_)),
        on_console(info.cursor_position),
    ensures
        ({
            let (saved, action) = saving.save_position_spec(
                before,
                Reply::ScreenBufferInfo(Some(info)),
            );
            &&& action == Action::Finished(true)
            &&& saved == cursor_position(info)
            &&& resetting.reset_position_spec(saved, Reply::Start) matches Action::Call(request)
            &&& console_after(later, request).cursor_position == info.cursor_position
        }),
{
}

} // verus!
