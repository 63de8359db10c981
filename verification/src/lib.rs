//! Terminal control as a verified core that makes no call itself.
//!
//! A terminal is driven in one of two ways: by escape sequences written to
//! standard output, or by the calls of a native console. This crate decides
//! which of the two a process uses, computes every call that the cursor, the
//! terminal and the colours need, and keeps the changes that a process makes
//! to the modes of its terminal so that they can be taken back exactly.
//!
//! Nothing here touches a stream or a handle. An operation is a state machine:
//! it is begun with [`kernel::Reply::Start`] and answers with a
//! [`kernel::Action`], which is a call to make on the terminal, a
//! [`kernel::Request`], or the end of the operation. The caller makes the call
//! and hands the reply back. So every contract in this crate speaks of values
//! only, and says of each step exactly what is asked of the terminal.
//!
//! What a process remembers of its terminal, which is the chosen backends,
//! the handles, the saved position of the cursor and the ledger of commands,
//! is held in values that the caller owns and hands in by reference. What a
//! detection found is recorded in the command that carried it out, which is
//! kept in the ledger like every other command. No two operations can change
//! these values at once.

pub mod cursor;
pub mod kernel;
pub mod shared;
pub mod state;
pub mod style;
pub mod terminal;
