//! The boundary to the operating system, as values.
//!
//! A [`Request`] names one call that the hosting process makes on the terminal;
//! a [`Reply`] carries what the call answered. An operation that needs more
//! than one call is a state machine: it is handed the last reply and returns an
//! [`Action`], until the action says that it has finished.

pub mod unix_kernel;
pub mod windows_kernel;

use crate::cursor::winapi_cursor::{going_to, moving};
use crate::kernel::windows_kernel::kernel::{lookup, ScreenBufferInfo, INVALID_HANDLE_VALUE};
use crate::shared::functions::{cursor_position_spec, terminal_size_spec, Platform};
use crate::shared::sequence::{emitted, Sequence};
use crate::state::commands::win_commands::{
    block_origin,
    block_size,
    source_region,
    target_region,
    EnableRawModeCommand,
    ScreenPhase,
    ToAlternateScreenBufferCommand,
};
use crate::state::commands::{ICommand, Phase};
use crate::style::color::winapi_color::coloring;
use crate::style::{Color, ColorType};
use termios::Termios;
use vstd::prelude::*;
use vstd::string::StringExecFns;

verus! {

/// One of the two standard streams of a console.
#[derive(Clone, Copy, Debug, PartialEq, Eq)]
pub enum StdStream {
    Input,
    Output,
}

/// A cell position of the console: column `x`, row `y`.
#[derive(Clone, Copy, Debug, PartialEq, Eq)]
pub struct Coord {
    pub x: i16,
    pub y: i16,
}

/// A rectangle of console cells, by its corners, both inclusive.
#[derive(Clone, Copy, Debug, PartialEq, Eq)]
pub struct SmallRect {
    pub left: i16,
    pub top: i16,
    pub right: i16,
    pub bottom: i16,
}

/// A screen buffer of the console.
#[derive(Clone, Copy, Debug, PartialEq, Eq)]
pub enum ScreenBuffer {
    /// The buffer behind the standard output handle.
    Standard,
    /// A buffer that was created later, by its handle.
    Created(isize),
}

/// A condition after which the process must not go on using the terminal.
#[derive(Clone, Copy, Debug, PartialEq, Eq)]
pub enum Fatal {
    /// The standard output handle is invalid.
    OutputHandle,
    /// The standard input handle is invalid.
    InputHandle,
    /// The console did not report its screen buffer.
    ScreenBufferInfo,
    /// A column outside the range of the console, with the value asked for.
    XOutOfRange(i32),
    /// A row outside the range of the console, with the value asked for.
    YOutOfRange(i32),
    /// The console refused the cursor position.
    CursorPosition,
    /// No new screen buffer could be created.
    CreateScreenBuffer,
    /// The screen buffer could not be made the active one.
    ActiveScreenBuffer,
    /// The block of cells could not be read.
    ReadConsoleOutput,
    /// The block of cells could not be written.
    WriteConsoleOutput,
}

/// One call on the terminal.
#[derive(Clone, Copy, Debug, PartialEq, Eq)]
pub enum Request {
    /// Write the text of the sequence to standard output and flush it.
    Write(Sequence),
    /// Read where the cursor is, in the way of the platform.
    GetCursorPosition,
    /// Read how many columns and rows the window of the terminal has.
    GetWindowSize,
    /// Ask the console for the handle of one of its standard streams.
    GetStdHandle(StdStream),
    /// Have the console report its screen buffer.
    GetConsoleScreenBufferInfo,
    /// Read the mode word of a console stream.
    GetConsoleMode(StdStream),
    /// Set the mode word of a console stream.
    SetConsoleMode(StdStream, u32),
    /// Place the console cursor.
    SetConsoleCursorPosition(Coord),
    /// Set the attributes of the text written from now on.
    SetConsoleTextAttribute(u16),
    /// Create a new console screen buffer.
    CreateConsoleScreenBuffer,
    /// Copy a region of the standard screen buffer into the transfer block.
    ReadConsoleOutput { buffer_size: Coord, buffer_coord: Coord, region: SmallRect },
    /// Copy the transfer block into a region of a screen buffer.
    WriteConsoleOutput {
        target: isize,
        buffer_size: Coord,
        buffer_coord: Coord,
        region: SmallRect,
    },
    /// Make a screen buffer the one that is shown.
    SetActiveScreenBuffer(ScreenBuffer),
    /// Read the local mode flags of the terminal device.
    GetLocalFlags,
    /// Set the local mode flags of the terminal device, leaving the rest of
    /// its mode as it is.
    SetLocalFlags(u64),
    /// Read the whole mode of the terminal device.
    GetTerminalMode,
    /// Set the whole mode of the terminal device.
    SetTerminalMode(Termios),
}

/// What the terminal answered.
#[derive(Clone, Copy, Debug, PartialEq, Eq)]
pub enum Reply {
    /// Nothing yet: the operation begins.
    Start,
    /// The column and the row of the cursor, counted from zero; `None` when
    /// the terminal gave no answer that could be understood.
    CursorPosition(Option<(u16, u16)>),
    /// The columns and the rows of the window; `None` when they could not be
    /// read.
    WindowSize(Option<(u16, u16)>),
    /// The handle that the console gave for a standard stream.
    Handle(isize),
    /// The report of the screen buffer; `None` when the console gave none.
    ScreenBufferInfo(Option<ScreenBufferInfo>),
    /// The mode word of a console stream, `None` when it could not be read.
    ConsoleMode(Option<u32>),
    /// The local mode flags, `None` when they could not be read.
    LocalFlags(Option<u64>),
    /// The mode of the terminal device, `None` when it could not be read.
    TerminalMode(Option<Termios>),
    /// The handle of the screen buffer that was created.
    ScreenBuffer(isize),
    /// Whether a call that returns nothing else succeeded.
    Done(bool),
}

/// What an operation wants next.
#[derive(Clone, Copy, Debug, PartialEq, Eq)]
pub enum Action {
    /// Make this call and come back with its reply.
    Call(Request),
    /// The operation is over; the flag tells whether it succeeded.
    Finished(bool),
    /// The operation met a condition that the process cannot survive.
    Fatal(Fatal),
}

/// What a query wants next, or what it found.
#[derive(Clone, Copy, Debug, PartialEq, Eq)]
pub enum Query {
    /// Make this call and come back with its reply.
    Call(Request),
    /// The pair that was asked for.
    Found(u16, u16),
    /// The query met a condition that the process cannot survive.
    Fatal(Fatal),
}

/// What the lookup of a handle wants next, or what it found.
#[derive(Clone, Copy, Debug, PartialEq, Eq)]
pub enum HandleQuery {
    /// Make this call and come back with its reply.
    Call(Request),
    /// The handle.
    Found(isize),
    /// The lookup met a condition that the process cannot survive.
    Fatal(Fatal),
}

impl Request {
    /// The fatal condition that the failure of this call amounts to, `None`
    /// where a failed call only makes the operation report `false`.
    pub open spec fn failure_spec(self) -> Option<Fatal> {
        match self {
            Request::GetStdHandle(StdStream::Output) => Some(Fatal::OutputHandle),
            Request::GetStdHandle(StdStream::Input) => Some(Fatal::InputHandle),
            Request::GetConsoleScreenBufferInfo => Some(Fatal::ScreenBufferInfo),
            Request::SetConsoleCursorPosition(_) => Some(Fatal::CursorPosition),
            Request::CreateConsoleScreenBuffer => Some(Fatal::CreateScreenBuffer),
            Request::ReadConsoleOutput { .. } => Some(Fatal::ReadConsoleOutput),
            Request::WriteConsoleOutput { .. } => Some(Fatal::WriteConsoleOutput),
            Request::SetActiveScreenBuffer(_) => Some(Fatal::ActiveScreenBuffer),
            _ => None,
        }
    }

    /// Tells whether the process has to stop when this call fails.
    pub fn failure(&self) -> (fatal: Option<Fatal>)
        ensures
            fatal == self.failure_spec(),
    {
        match self {
            Request::GetStdHandle(StdStream::Output) => Some(Fatal::OutputHandle),
            Request::GetStdHandle(StdStream::Input) => Some(Fatal::InputHandle),
            Request::GetConsoleScreenBufferInfo => Some(Fatal::ScreenBufferInfo),
            Request::SetConsoleCursorPosition(_) => Some(Fatal::CursorPosition),
            Request::CreateConsoleScreenBuffer => Some(Fatal::CreateScreenBuffer),
            Request::ReadConsoleOutput { .. } => Some(Fatal::ReadConsoleOutput),
            Request::WriteConsoleOutput { .. } => Some(Fatal::WriteConsoleOutput),
            Request::SetActiveScreenBuffer(_) => Some(Fatal::ActiveScreenBuffer),
            _ => None,
        }
    }
}

impl Fatal {
    /// The words that describe the condition.
    pub open spec fn text(self) -> Seq<char> {
        match self {
            Fatal::OutputHandle => "Cannot get output handle"@,
            Fatal::InputHandle => "Cannot get input handle"@,
            Fatal::ScreenBufferInfo => "Cannot get console screen buffer info"@,
            Fatal::XOutOfRange(x) => "X: "@ + crate::shared::decimal::signed_decimal(x as int)
                + ", Argument Out of Range Exception"@,
            Fatal::YOutOfRange(y) => "Y: "@ + crate::shared::decimal::signed_decimal(y as int)
                + ", Argument Out of Range Exception"@,
            Fatal::CursorPosition => "Argument out of range."@,
            Fatal::CreateScreenBuffer => "Cannot create console screen buffer"@,
            Fatal::ActiveScreenBuffer => "Cannot set active screen buffer"@,
            Fatal::ReadConsoleOutput => "Cannot read console output"@,
            Fatal::WriteConsoleOutput => "Cannot write to console output"@,
        }
    }

    /// Describes the condition in words, for the message the process stops
    /// with.
    pub fn message(&self) -> (message: String)
        ensures
            message@ == self.text(),
    {
        match *self {
            Fatal::OutputHandle => String::from_str("Cannot get output handle"),
            Fatal::InputHandle => String::from_str("Cannot get input handle"),
            Fatal::ScreenBufferInfo => String::from_str("Cannot get console screen buffer info"),
            Fatal::XOutOfRange(x) => {
                let mut message = String::from_str("X: ");
                crate::shared::decimal::push_signed_decimal(&mut message, x);
                message.append(", Argument Out of Range Exception");
                message
            },
            Fatal::YOutOfRange(y) => {
                let mut message = String::from_str("Y: ");
                crate::shared::decimal::push_signed_decimal(&mut message, y);
                message.append(", Argument Out of Range Exception");
                message
            },
            Fatal::CursorPosition => String::from_str("Argument out of range."),
            Fatal::CreateScreenBuffer => String::from_str("Cannot create console screen buffer"),
            Fatal::ActiveScreenBuffer => String::from_str("Cannot set active screen buffer"),
            Fatal::ReadConsoleOutput => String::from_str("Cannot read console output"),
            Fatal::WriteConsoleOutput => String::from_str("Cannot write to console output"),
        }
    }
}

/// The answer to a call that has failed: the fatal condition that the
/// failure of that call amounts to, and where it amounts to none, the end of
/// the operation without success.
pub open spec fn failed(request: Request) -> Action {
    match request.failure_spec() {
        Some(fatal) => Action::Fatal(fatal),
        None => Action::Finished(false),
    }
}

/// As [`failed`], for a query.
pub open spec fn failed_query(request: Request) -> Query {
    match request.failure_spec() {
        Some(fatal) => Query::Fatal(fatal),
        None => Query::Found(0, 0),
    }
}

/// Every operation of the library answers the failure of a call that it has
/// made as [`Request::failure`] says of that call: with the fatal condition
/// where the call has one, and by ending without success where it has none.
pub proof fn lemma_operations_fail_as_their_calls_do(
    handle: isize,
    held: Option<isize>,
    stream: StdStream,
    x: int,
    y: int,
    position: Coord,
    word: u32,
    mask: u32,
    color: Color,
    color_type: ColorType,
    attributes: u16,
    sequence: Sequence,
)
    ensures
        held is None ==> lookup(held, stream, Reply::Handle(INVALID_HANDLE_VALUE)).1
            == HandleQuery::Fatal(Request::GetStdHandle(stream).failure_spec().unwrap()),
        going_to(Reply::Done(false), x, y) == failed(Request::SetConsoleCursorPosition(position)),
        moving(Reply::Done(false), x, y) == failed(Request::SetConsoleCursorPosition(position)),
        moving(Reply::ScreenBufferInfo(None), x, y) == failed(Request::GetConsoleScreenBufferInfo),
        cursor_position_spec(Platform::Windows, Reply::ScreenBufferInfo(None)) == failed_query(
            Request::GetConsoleScreenBufferInfo,
        ),
        terminal_size_spec(Platform::Windows, Reply::ScreenBufferInfo(None)) == failed_query(
            Request::GetConsoleScreenBufferInfo,
        ),
        cursor_position_spec(Platform::Unix, Reply::CursorPosition(None)) == failed_query(
            Request::GetCursorPosition,
        ),
        terminal_size_spec(Platform::Unix, Reply::WindowSize(None)) == failed_query(
            Request::GetWindowSize,
        ),
        coloring(Reply::ScreenBufferInfo(None), color, color_type) == failed(
            Request::GetConsoleScreenBufferInfo,
        ),
        coloring(Reply::Done(false), color, color_type) == failed(
            Request::SetConsoleTextAttribute(attributes),
        ),
        emitted(Reply::Done(false), sequence) == failed(Request::Write(sequence)),
        (EnableRawModeCommand { mask, phase: Phase::Reading }).execute_spec(
            Reply::ConsoleMode(None),
        ).1 == failed(Request::GetConsoleMode(StdStream::Input)),
        (EnableRawModeCommand { mask, phase: Phase::Writing(word) }).execute_spec(
            Reply::Done(false),
        ).1 == failed(Request::SetConsoleMode(StdStream::Input, word)),
        (EnableRawModeCommand { mask, phase: Phase::Restoring(word) }).undo_spec(
            Reply::Done(false),
        ).1 == failed(Request::SetConsoleMode(StdStream::Input, word)),
        (ToAlternateScreenBufferCommand { phase: ScreenPhase::Creating }).execute_spec(
            Reply::ScreenBuffer(INVALID_HANDLE_VALUE),
        ).1 == failed(Request::CreateConsoleScreenBuffer),
        (ToAlternateScreenBufferCommand { phase: ScreenPhase::Reading(handle) }).execute_spec(
            Reply::Done(false),
        ).1 == failed(
            Request::ReadConsoleOutput {
                buffer_size: block_size(),
                buffer_coord: block_origin(),
                region: source_region(),
            },
        ),
        (ToAlternateScreenBufferCommand { phase: ScreenPhase::Writing(handle) }).execute_spec(
            Reply::Done(false),
        ).1 == failed(
            Request::WriteConsoleOutput {
                target: handle,
                buffer_size: block_size(),
                buffer_coord: block_origin(),
                region: target_region(),
            },
        ),
        (ToAlternateScreenBufferCommand { phase: ScreenPhase::Activating(handle) }).execute_spec(
            Reply::Done(false),
        ).1 == failed(Request::SetActiveScreenBuffer(ScreenBuffer::Created(handle))),
        (ToAlternateScreenBufferCommand { phase: ScreenPhase::Returning(handle) }).undo_spec(
            Reply::Done(false),
        ).1 == failed(Request::SetActiveScreenBuffer(ScreenBuffer::Standard)),
{
}

} // verus!
