//! The native console: its handles, what it reports of its screen buffer, and
//! the checks that stand before a call.

use crate::kernel::{Action, Coord, Fatal, HandleQuery, Reply, Request, SmallRect, StdStream};
use vstd::prelude::*;

verus! {

/// The handle value that the console hands out in place of a handle it could
/// not resolve.
pub const INVALID_HANDLE_VALUE: isize = -1;

/// What the console reports of its screen buffer.
#[derive(Clone, Copy, Debug, PartialEq, Eq)]
pub struct ScreenBufferInfo {
    /// The size of the buffer, in columns and rows.
    pub size: Coord,
    /// Where the cursor is.
    pub cursor_position: Coord,
    /// The attributes of the text written at present.
    pub attributes: u16,
    /// The part of the buffer that the window shows.
    pub window: SmallRect,
    /// The largest window that the buffer and the screen allow.
    pub maximum_window_size: Coord,
}

/// The handles of the two standard streams, each resolved at most once.
pub struct HandleCache {
    pub output: Option<isize>,
    pub input: Option<isize>,
}

impl HandleCache {
    /// No handle that the cache holds is the invalid handle. A new cache is
    /// valid, and a lookup leaves the handle that it looked up valid.
    pub open spec fn valid(self) -> bool {
        self.output != Some(INVALID_HANDLE_VALUE) && self.input != Some(INVALID_HANDLE_VALUE)
    }

    /// A cache that holds no handle yet.
    pub fn new() -> (cache: HandleCache)
        ensures
            cache.output is None,
            cache.input is None,
            cache.valid(),
    {
        HandleCache { output: None, input: None }
    }
}

/// The fatal condition of a stream without a handle.
pub open spec fn no_handle(stream: StdStream) -> Fatal {
    match stream {
        StdStream::Output => Fatal::OutputHandle,
        StdStream::Input => Fatal::InputHandle,
    }
}

/// One step of looking up the handle of a stream: what is held afterwards,
/// and the answer. A handle that is held and is not the invalid handle is the
/// answer, and nothing is asked of the console. Else the console is asked, and
/// the handle it gives is held from then on and is the answer; but the
/// invalid handle is never held, and to be given it is fatal.
pub open spec fn lookup(held: Option<isize>, stream: StdStream, reply: Reply) -> (
    Option<isize>,
    HandleQuery,
) {
    match held {
        Some(handle) if handle != INVALID_HANDLE_VALUE => (held, HandleQuery::Found(handle)),
        _ => match reply {
            Reply::Handle(given) => if given != INVALID_HANDLE_VALUE {
                (Some(given), HandleQuery::Found(given))
            } else {
                (None, HandleQuery::Fatal(no_handle(stream)))
            },
            _ => (None, HandleQuery::Call(Request::GetStdHandle(stream))),
        },
    }
}

fn look_up(held: &mut Option<isize>, stream: StdStream, reply: Reply) -> (query: HandleQuery)
    ensures
        (*final(held), query) == lookup(*old(held), stream, reply),
{
    let usable = match *held {
        Some(handle) => is_valid_handle(handle),
        None => false,
    };
    if usable {
        match *held {
            Some(handle) => HandleQuery::Found(handle),
            None => HandleQuery::Call(Request::GetStdHandle(stream)),
        }
    } else {
        match reply {
            Reply::Handle(given) => {
                if is_valid_handle(given) {
                    *held = Some(given);
                    HandleQuery::Found(given)
                } else {
                    *held = None;
                    match stream {
                        StdStream::Output => HandleQuery::Fatal(Fatal::OutputHandle),
                        StdStream::Input => HandleQuery::Fatal(Fatal::InputHandle),
                    }
                }
            },
            _ => {
                *held = None;
                HandleQuery::Call(Request::GetStdHandle(stream))
            },
        }
    }
}

/// Looks up the handle of standard output, one step at a time.
pub fn get_output_handle(cache: &mut HandleCache, reply: Reply) -> (query: HandleQuery)
    ensures
        final(cache).input == old(cache).input,
        (final(cache).output, query) == lookup(old(cache).output, StdStream::Output, reply),
        final(cache).output != Some(INVALID_HANDLE_VALUE),
{
    look_up(&mut cache.output, StdStream::Output, reply)
}

/// Looks up the handle of standard input, one step at a time.
pub fn get_input_handle(cache: &mut HandleCache, reply: Reply) -> (query: HandleQuery)
    ensures
        final(cache).output == old(cache).output,
        (final(cache).input, query) == lookup(old(cache).input, StdStream::Input, reply),
        final(cache).input != Some(INVALID_HANDLE_VALUE),
{
    look_up(&mut cache.input, StdStream::Input, reply)
}

/// A handle is asked for at most once: after a lookup has found a handle,
/// every later lookup finds the same handle, whatever reply it is handed, and
/// asks nothing of the console.
pub proof fn lemma_handle_is_resolved_once(
    held: Option<isize>,
    stream: StdStream,
    reply: Reply,
    later: Reply,
)
    ensures
        lookup(held, stream, reply).1 matches HandleQuery::Found(handle) ==> lookup(
            lookup(held, stream, reply).0,
            stream,
            later,
        ) == (Some(handle), HandleQuery::Found(handle)) && handle != INVALID_HANDLE_VALUE,
{
}

/// Tells whether a handle is anything but the invalid handle.
pub fn is_valid_handle(handle: isize) -> (valid: bool)
    ensures
        valid == (handle != INVALID_HANDLE_VALUE),
{
    if handle == INVALID_HANDLE_VALUE {
        false
    } else {
        true
    }
}

/// The report of the screen buffer, which the console must be able to give.
pub fn get_console_screen_buffer_info(reported: Option<ScreenBufferInfo>) -> (info: Result<
    ScreenBufferInfo,
    Fatal,
>)
    ensures
        info == match reported {
            Some(csbi) => Ok::<ScreenBufferInfo, Fatal>(csbi),
            None => Err::<ScreenBufferInfo, Fatal>(Fatal::ScreenBufferInfo),
        },
{
    match reported {
        Some(csbi) => Ok(csbi),
        None => Err(Fatal::ScreenBufferInfo),
    }
}

/// The text attributes that the console had when `info` was taken.
pub fn get_original_console_color(info: &ScreenBufferInfo) -> (color: u16)
    ensures
        color == info.attributes,
{
    info.attributes
}

/// A coordinate that the console accepts for its cursor.
pub open spec fn in_cursor_range(value: int) -> bool {
    0 <= value < i16::MAX
}

/// The request that places the cursor at column `x`, row `y`, or the fatal
/// condition when one of them is out of range; the column is judged first.
pub open spec fn cursor_position_request(x: int, y: int) -> Result<Request, Fatal> {
    if !in_cursor_range(x) {
        Err(Fatal::XOutOfRange(x as i32))
    } else if !in_cursor_range(y) {
        Err(Fatal::YOutOfRange(y as i32))
    } else {
        Ok(Request::SetConsoleCursorPosition(Coord { x: x as i16, y: y as i16 }))
    }
}

/// Checks a position that was computed in wider numbers, and makes the
/// request that places the cursor there.
pub fn place_cursor(x: i32, y: i32) -> (request: Result<Request, Fatal>)
    ensures
        request == cursor_position_request(x as int, y as int),
{
    if x < 0 || x >= 32767 {
        return Err(Fatal::XOutOfRange(x));
    }
    if y < 0 || y >= 32767 {
        return Err(Fatal::YOutOfRange(y));
    }
    Ok(Request::SetConsoleCursorPosition(Coord { x: x as i16, y: y as i16 }))
}

/// Checks a cursor position and makes the request that sets it.
pub fn set_console_cursor_position(x: i16, y: i16) -> (request: Result<Request, Fatal>)
    ensures
        request == cursor_position_request(x as int, y as int),
{
    place_cursor(x as i32, y as i32)
}

/// What follows a call that placed the cursor: the console refusing the
/// position is fatal.
pub open spec fn cursor_placed(ok: bool) -> Action {
    if ok {
        Action::Finished(true)
    } else {
        Action::Fatal(Fatal::CursorPosition)
    }
}

/// The request that sets the attributes of the text written from now on.
pub fn set_console_text_attribute(value: u16) -> (request: Request)
    ensures
        request == Request::SetConsoleTextAttribute(value),
{
    Request::SetConsoleTextAttribute(value)
}

/// Reads the integer that a console call returns as a truth value.
pub fn is_true(value: i32) -> (truth: bool)
    ensures
        truth == (value != 0),
{
    if value == 0 {
        return false;
    } else {
        return true;
    }
}

/// The screen buffer as the console reports it once `request` has succeeded:
/// placing the cursor and setting the text attributes change what they name,
/// and no other request changes the report.
pub open spec fn console_after(info: ScreenBufferInfo, request: Request) -> ScreenBufferInfo {
    match request {
        Request::SetConsoleCursorPosition(position) => ScreenBufferInfo {
            cursor_position: position,
            ..info
        },
        Request::SetConsoleTextAttribute(value) => ScreenBufferInfo { attributes: value, ..info },
        _ => info,
    }
}

} // verus!
