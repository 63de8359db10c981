//! The mode of a terminal device and the flags in it that the commands change.
//!
//! The mode itself is a value of the `termios` crate that the library carries
//! from a reply to a request without looking inside.

use termios::Termios;
use vstd::prelude::*;

verus! {

/// The type `termios::Termios`, the mode of a terminal device. Nothing is
/// claimed of what a value of it holds.
#[verifier::external_type_specification]
#[verifier::external_body]
pub struct ExTermios(Termios);

/// The raw mode that belongs to a terminal mode: what `cfmakeraw` makes of it.
pub uninterp spec fn raw_mode_of(mode: Termios) -> Termios;

/// Calls `termios::cfmakeraw` on a copy of `mode`. The function rewrites the
/// flag words of the structure it is given and reads nothing else, so its
/// result is determined by `mode`; which flags it clears is left to the
/// platform's C library and is not stated here.
#[verifier::external_body]
pub(crate) fn make_raw(mode: Termios) -> (raw: Termios)
    ensures
        raw == raw_mode_of(mode),
{
    let mut raw = mode;
    termios::cfmakeraw(&mut raw);
    raw
}

/// The constant `termios::ICANON`, the local flag for canonical (line by
/// line) input. The crate gives it one of two values, by the platform it is
/// built for.
#[verifier::external_body]
pub(crate) fn icanon() -> (flag: u64)
    ensures
        flag == 0x0002 || flag == 0x0100,
{
    termios::ICANON as u64
}

/// The constant `termios::ECHO`, the local flag for echoing input. The crate
/// gives it the same value on every platform it is built for.
#[verifier::external_body]
pub(crate) fn echo() -> (flag: u64)
    ensures
        flag == 0x0008,
{
    termios::ECHO as u64
}

/// The constant `termios::CREAD`, the flag that enables the receiver. The
/// crate gives it one of two values, by the platform it is built for.
#[verifier::external_body]
pub(crate) fn cread() -> (flag: u64)
    ensures
        flag == 0x0080 || flag == 0x0800,
{
    termios::CREAD as u64
}

} // verus!
