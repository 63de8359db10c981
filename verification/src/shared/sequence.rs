//! The escape sequences that the escape-sequence backends emit.
//!
//! A [`Sequence`] is the plain value; [`Sequence::render`] gives its text, which
//! always starts with the control sequence introducer `ESC [`.

use crate::kernel::{Action, Reply, Request};
use crate::shared::decimal::{decimal, push_decimal, push_signed_decimal, signed_decimal};
use crate::terminal::ClearType;
use vstd::prelude::*;
use vstd::string::StringExecFns;

verus! {

/// One escape sequence.
#[derive(Clone, Copy, Debug, PartialEq, Eq)]
pub enum Sequence {
    /// Move the cursor to a row and a column, both counted from one.
    CursorPosition { row: u32, column: u32 },
    /// Move the cursor up by a number of rows.
    CursorUp(u16),
    /// Move the cursor down by a number of rows.
    CursorDown(u16),
    /// Move the cursor right by a number of columns.
    CursorForward(u16),
    /// Move the cursor left by a number of columns.
    CursorBack(u16),
    /// Ask the terminal to report where the cursor is.
    ReportCursorPosition,
    /// Have the terminal remember where the cursor is.
    SaveCursor,
    /// Have the terminal put the cursor back where it was remembered.
    RestoreCursor,
    /// Clear a region of the screen.
    Clear(ClearType),
    /// Scroll the screen up by a number of lines.
    ScrollUp(i16),
    /// Scroll the screen down by a number of lines.
    ScrollDown(i16),
    /// Resize the terminal window to a width and a height in cells.
    Resize { width: i16, height: i16 },
}

/// The control sequence introducer, `ESC [`.
pub open spec fn csi() -> Seq<char> {
    seq!['\x1b', '[']
}

/// What follows the introducer when a region is cleared.
pub open spec fn clear_code(clear_type: ClearType) -> Seq<char> {
    match clear_type {
        ClearType::All => seq!['2', 'J'],
        ClearType::FromCursorDown => seq!['J'],
        ClearType::FromCursorUp => seq!['1', 'J'],
        ClearType::CurrentLine => seq!['2', 'K'],
        ClearType::UntilNewLine => seq!['K'],
    }
}

impl Sequence {
    /// The text of the sequence.
    pub open spec fn text(self) -> Seq<char> {
        match self {
            Sequence::CursorPosition { row, column } => csi() + decimal(row as nat) + seq![';']
                + decimal(column as nat) + seq!['H'],
            Sequence::CursorUp(count) => csi() + decimal(count as nat) + seq!['A'],
            Sequence::CursorDown(count) => csi() + decimal(count as nat) + seq!['B'],
            Sequence::CursorForward(count) => csi() + decimal(count as nat) + seq!['C'],
            Sequence::CursorBack(count) => csi() + decimal(count as nat) + seq!['D'],
            Sequence::ReportCursorPosition => csi() + seq!['6', 'n'],
            Sequence::SaveCursor => csi() + seq!['s'],
            Sequence::RestoreCursor => csi() + seq!['u'],
            Sequence::Clear(clear_type) => csi() + clear_code(clear_type),
            Sequence::ScrollUp(count) => csi() + signed_decimal(count as int) + seq!['S'],
            Sequence::ScrollDown(count) => csi() + signed_decimal(count as int) + seq!['T'],
            Sequence::Resize { width, height } => csi() + seq!['8', ';'] + signed_decimal(
                width as int,
            ) + seq![';'] + signed_decimal(height as int) + seq!['t'],
        }
    }

    /// Writes the sequence out as text.
    pub fn render(&self) -> (text: String)
        ensures
            text@ == self.text(),
    {
        let mut out = String::new();
        proof {
            reveal_strlit("\x1b[");
            reveal_strlit(";");
            reveal_strlit("H");
            reveal_strlit("A");
            reveal_strlit("B");
            reveal_strlit("C");
            reveal_strlit("D");
            reveal_strlit("s");
            reveal_strlit("u");
            reveal_strlit("S");
            reveal_strlit("T");
            reveal_strlit("t");
            reveal_strlit("8;");
            reveal_strlit("6n");
        }
        out.append("\x1b[");
        assert(out@ =~= csi());
        match *self {
            Sequence::CursorPosition { row, column } => {
                push_decimal(&mut out, row);
                out.append(";");
                push_decimal(&mut out, column);
                out.append("H");
            },
            Sequence::CursorUp(count) => {
                push_decimal(&mut out, count as u32);
                out.append("A");
            },
            Sequence::CursorDown(count) => {
                push_decimal(&mut out, count as u32);
                out.append("B");
            },
            Sequence::CursorForward(count) => {
                push_decimal(&mut out, count as u32);
                out.append("C");
            },
            Sequence::CursorBack(count) => {
                push_decimal(&mut out, count as u32);
                out.append("D");
            },
            Sequence::ReportCursorPosition => {
                out.append("6n");
            },
            Sequence::SaveCursor => {
                out.append("s");
            },
            Sequence::RestoreCursor => {
                out.append("u");
            },
            Sequence::Clear(clear_type) => {
                out.append(clear_text(clear_type));
            },
            Sequence::ScrollUp(count) => {
                push_signed_decimal(&mut out, count as i32);
                out.append("S");
            },
            Sequence::ScrollDown(count) => {
                push_signed_decimal(&mut out, count as i32);
                out.append("T");
            },
            Sequence::Resize { width, height } => {
                out.append("8;");
                push_signed_decimal(&mut out, width as i32);
                out.append(";");
                push_signed_decimal(&mut out, height as i32);
                out.append("t");
            },
        }
        assert(out@ =~= self.text());
        out
    }
}

/// One step of an action that consists in writing one escape sequence: the
/// sequence is written, and the action ends as the write did. A reply that is
/// no answer to a write ends it without success.
pub open spec fn emitted(reply: Reply, sequence: Sequence) -> Action {
    match reply {
        Reply::Start => Action::Call(Request::Write(sequence)),
        Reply::Done(ok) => Action::Finished(ok),
        _ => Action::Finished(false),
    }
}

/// Takes the writing of one escape sequence a step further.
pub fn emit(reply: Reply, sequence: Sequence) -> (action: Action)
    ensures
        action == emitted(reply, sequence),
{
    match reply {
        Reply::Start => Action::Call(Request::Write(sequence)),
        Reply::Done(ok) => Action::Finished(ok),
        _ => Action::Finished(false),
    }
}

fn clear_text(clear_type: ClearType) -> (code: &'static str)
    ensures
        code@ == clear_code(clear_type),
{
    proof {
        reveal_strlit("2J");
        reveal_strlit("J");
        reveal_strlit("1J");
        reveal_strlit("2K");
        reveal_strlit("K");
    }
    let code = match clear_type {
        ClearType::All => "2J",
        ClearType::FromCursorDown => "J",
        ClearType::FromCursorUp => "1J",
        ClearType::CurrentLine => "2K",
        ClearType::UntilNewLine => "K",
    };
    assert(code@ =~= clear_code(clear_type));
    code
}

} // verus!
