//! Whether the console acts on escape sequences: the probe and its record.
//!
//! The console has to be asked to act on escape sequences, and asking is the
//! only way to find out whether it can. So detecting the capability and
//! enabling it are one action, the execution of an
//! [`EnableAnsiCommand`]; how it ended is recorded in the [`CapabilityState`]
//! that the command carries.

use crate::kernel::{Action, Reply};
use crate::state::commands::win_commands::{untried, EnableAnsiCommand};
use crate::state::commands::{Command, ICommand};
use crate::state::Context;
use vstd::prelude::*;

verus! {

/// What a command that enables escape sequences has found out about the
/// console's support for them.
#[derive(Clone, Copy, Debug, PartialEq, Eq)]
pub struct CapabilityState {
    /// A detection has been carried through.
    pub has_been_tried_to_enable: bool,
    /// Escape sequences are enabled at present; `None` before any detection.
    pub is_ansi_on_windows_enabled: Option<bool>,
    /// The console supports escape sequences; `None` before any detection.
    pub does_windows_support_ansi: Option<bool>,
}

/// The state before any detection.
pub open spec fn untested() -> CapabilityState {
    CapabilityState {
        has_been_tried_to_enable: false,
        is_ansi_on_windows_enabled: None,
        does_windows_support_ansi: None,
    }
}

impl CapabilityState {
    /// The state before any detection.
    pub fn new() -> (state: CapabilityState)
        ensures
            state == untested(),
    {
        CapabilityState {
            has_been_tried_to_enable: false,
            is_ansi_on_windows_enabled: None,
            does_windows_support_ansi: None,
        }
    }
}

/// The state once a detection has ended with `success`.
pub open spec fn recorded(success: bool) -> CapabilityState {
    CapabilityState {
        has_been_tried_to_enable: true,
        is_ansi_on_windows_enabled: Some(success),
        does_windows_support_ansi: Some(success),
    }
}

/// Takes a detection one step further: tries to enable escape sequences by
/// executing `command`, which records the result when it finishes.
pub fn try_enable_ansi_support(command: &mut EnableAnsiCommand, reply: Reply) -> (action: Action)
    ensures
        (*final(command), action) == old(command).execute_spec(reply),
{
    command.execute(reply)
}

/// What the command with an identity has found out about the console: its
/// record, if it is a command that enables escape sequences, and the state
/// before any detection if it is another command or none.
pub open spec fn capability_of(commands: Seq<Command>, key: int) -> CapabilityState {
    if 0 <= key < commands.len() {
        match commands[key] {
            Command::EnableAnsi(command) => command.record,
            _ => untested(),
        }
    } else {
        untested()
    }
}

/// Reads what the command with an identity has found out about the console.
pub fn capability(context: &Context<Command>, key: u64) -> (state: CapabilityState)
    ensures
        state == capability_of(context.commands(), key as int),
{
    match context.get(key) {
        Some(Command::EnableAnsi(command)) => command.record,
        _ => CapabilityState::new(),
    }
}

/// Tells whether escape sequences are enabled; `false` before any detection.
pub fn ansi_enabled(state: &CapabilityState) -> (enabled: bool)
    ensures
        enabled == (state.is_ansi_on_windows_enabled == Some(true)),
{
    match state.is_ansi_on_windows_enabled {
        Some(enabled) => enabled,
        None => false,
    }
}

/// Tells whether the console supports escape sequences; `false` before any
/// detection.
pub fn windows_supportable(state: &CapabilityState) -> (supported: bool)
    ensures
        supported == (state.does_windows_support_ansi == Some(true)),
{
    match state.does_windows_support_ansi {
        Some(supported) => supported,
        None => false,
    }
}

/// Tells whether a detection has been carried through.
pub fn has_been_tried_to_enable(state: &CapabilityState) -> (tried: bool)
    ensures
        tried == state.has_been_tried_to_enable,
{
    state.has_been_tried_to_enable
}

/// Records whether escape sequences are enabled.
pub fn set_ansi_enabled(state: &mut CapabilityState, is_enabled: bool)
    ensures
        *final(state) == (CapabilityState {
            is_ansi_on_windows_enabled: Some(is_enabled),
            ..*old(state)
        }),
{
    state.is_ansi_on_windows_enabled = Some(is_enabled);
}

pub(crate) fn set_is_windows_ansi_supportable(state: &mut CapabilityState, is_enabled: bool)
    ensures
        *final(state) == (CapabilityState {
            does_windows_support_ansi: Some(is_enabled),
            ..*old(state)
        }),
{
    state.does_windows_support_ansi = Some(is_enabled);
}

pub(crate) fn set_has_been_tried_to_enable(state: &mut CapabilityState, has_been_tried: bool)
    ensures
        *final(state) == (CapabilityState {
            has_been_tried_to_enable: has_been_tried,
            ..*old(state)
        }),
{
    state.has_been_tried_to_enable = has_been_tried;
}

/// A whole detection with `command`, on a console that answers the reading of
/// its output mode with `mode` and the writing with `written`: the command as
/// the detection leaves it. A detection that the command ends at once asks
/// nothing of the console.
pub open spec fn detection_with(command: EnableAnsiCommand, mode: Option<u32>, written: bool)
    -> EnableAnsiCommand {
    let begun = command.execute_spec(Reply::Start);
    if begun.1 is Finished {
        begun.0
    } else {
        let read = begun.0.execute_spec(Reply::ConsoleMode(mode));
        if read.1 is Finished {
            read.0
        } else {
            read.0.execute_spec(Reply::Done(written)).0
        }
    }
}

/// A whole detection with a command that has not been executed: what it
/// records.
pub open spec fn detection(mode: Option<u32>, written: bool) -> CapabilityState {
    detection_with(untried(), mode, written).record
}

/// A detection finds support exactly when the console lets its output mode be
/// read and be written, and records that it has been carried through.
pub proof fn lemma_detection_outcome(mode: Option<u32>, written: bool)
    ensures
        detection(mode, written) == recorded(mode is Some && written),
{
}

/// Detecting twice in a row gives what detecting once gives, as long as the
/// console behaves the same way both times: it lets its mode be read both
/// times or neither time, and be written both times or neither time. The mode
/// words themselves may differ, as they do once the flag is set. This holds
/// whether the second detection uses the command of the first, which does
/// nothing again once it is applied, or a command of its own.
pub proof fn lemma_detection_is_idempotent(
    first_mode: Option<u32>,
    second_mode: Option<u32>,
    written: bool,
)
    requires
        first_mode is Some <==> second_mode is Some,
    ensures
        detection(second_mode, written) == detection(first_mode, written),
        detection_with(
            detection_with(untried(), first_mode, written),
            second_mode,
            written,
        ).record == detection(first_mode, written),
{
}

} // verus!
