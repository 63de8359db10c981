//! The commands of a Unix terminal device.

use crate::kernel::unix_kernel::terminal::{cread, echo, icanon, make_raw, raw_mode_of};
use crate::kernel::{Action, Reply, Request};
use crate::state::commands::{Command, Event, ICommand, Phase, Step};
use crate::state::Context;
use termios::Termios;
use vstd::prelude::*;

verus! {

/// Local mode flags with the flags of `mask` removed.
pub open spec fn without_local_flags(flags: u64, mask: u64) -> u64 {
    flags & !mask
}

/// Removing flags clears every flag of the mask and changes no other bit.
pub proof fn lemma_without_local_flags_keeps_the_rest(flags: u64, mask: u64)
    ensures
        without_local_flags(flags, mask) & mask == 0,
        without_local_flags(flags, mask) & !mask == flags & !mask,
{
    assert((flags & !mask) & mask == 0) by (bit_vector);
    assert((flags & !mask) & !mask == flags & !mask) by (bit_vector);
}

/// A reply as the noncanonical command reads it.
pub open spec fn local_flags_event(reply: Reply, mask: u64) -> Event<u64> {
    match reply {
        Reply::Start => Event::Start,
        Reply::LocalFlags(Some(flags)) => Event::Observed {
            found: flags,
            next: without_local_flags(flags, mask),
        },
        Reply::Done(ok) => Event::Completed(ok),
        _ => Event::Failed,
    }
}

/// The action that stands for a step on the local mode flags.
pub open spec fn local_flags_action(step: Step<u64>) -> Action {
    match step {
        Step::Read => Action::Call(Request::GetLocalFlags),
        Step::Write(flags) => Action::Call(Request::SetLocalFlags(flags)),
        Step::Finished(ok) => Action::Finished(ok),
    }
}

fn read_local_flags(reply: Reply, mask: u64) -> (event: Event<u64>)
    ensures
        event == local_flags_event(reply, mask),
{
    match reply {
        Reply::Start => Event::Start,
        Reply::LocalFlags(Some(flags)) => Event::Observed { found: flags, next: flags & !mask },
        Reply::Done(ok) => Event::Completed(ok),
        _ => Event::Failed,
    }
}

fn act_on_local_flags(step: Step<u64>) -> (action: Action)
    ensures
        action == local_flags_action(step),
{
    match step {
        Step::Read => Action::Call(Request::GetLocalFlags),
        Step::Write(flags) => Action::Call(Request::SetLocalFlags(flags)),
        Step::Finished(ok) => Action::Finished(ok),
    }
}

/// The mask is made of the flag for echo, which is `0x0008`, the flag for
/// canonical input, which is `0x0002` or `0x0100`, and the flag for the
/// receiver, which is `0x0080` or `0x0800`.
pub open spec fn is_platform_mask(mask: u64) -> bool {
    mask == 0x008a || mask == 0x080a || mask == 0x0188 || mask == 0x0908
}

/// Switches the terminal device to noncanonical mode: input is neither
/// gathered into lines nor echoed.
#[derive(Clone, Copy, Debug, PartialEq, Eq)]
pub struct NoncanonicalModeCommand {
    /// The flags that the command removes from the local mode flags.
    pub mask: u64,
    /// Where the command stands, with the local mode flags it found.
    pub phase: Phase<u64>,
}

impl NoncanonicalModeCommand {
    /// Registers a command that has not been executed and that removes the
    /// flags for canonical input, for echo and for the receiver, as the
    /// platform numbers them; returns its identity.
    pub fn new(context: &mut Context<Command>) -> (key: u64)
        ensures
            key == old(context).commands().len(),
            final(context).commands().len() == old(context).commands().len() + 1,
            final(context).commands().drop_last() == old(context).commands(),
            final(context).commands().last() matches Command::NoncanonicalMode(command)
                && command.phase is Idle && is_platform_mask(command.mask),
            final(context).sweeping() == old(context).sweeping(),
    {
        let canonical = icanon();
        let echoing = echo();
        let receiving = cread();
        let mask = canonical | echoing | receiving;
        assert(is_platform_mask(mask)) by (bit_vector)
            requires
                canonical == 0x0002 || canonical == 0x0100,
                echoing == 0x0008,
                receiving == 0x0080 || receiving == 0x0800,
                mask == canonical | echoing | receiving,
        ;
        let key = NoncanonicalModeCommand::with_mask(context, mask);
        assert(context.commands().drop_last() =~= old(context).commands());
        key
    }

    /// Registers a command that has not been executed and that removes the
    /// flags of `mask`; returns its identity.
    pub fn with_mask(context: &mut Context<Command>, mask: u64) -> (key: u64)
        ensures
            key == old(context).commands().len(),
            final(context).commands() == old(context).commands().push(
                Command::NoncanonicalMode(NoncanonicalModeCommand { mask, phase: Phase::Idle }),
            ),
            final(context).sweeping() == old(context).sweeping(),
    {
        context.register(
            Command::NoncanonicalMode(NoncanonicalModeCommand { mask, phase: Phase::Idle }),
        )
    }
}

impl ICommand for NoncanonicalModeCommand {
    open spec fn is_applied(&self) -> bool {
        self.phase.is_applied()
    }

    /// One step of executing: the local mode flags are read, and written back
    /// with the flags of the mask removed.
    open spec fn execute_spec(&self, reply: Reply) -> (Self, Action) {
        let (phase, step) = self.phase.execute_spec(local_flags_event(reply, self.mask));
        (NoncanonicalModeCommand { mask: self.mask, phase }, local_flags_action(step))
    }

    /// One step of undoing: the local mode flags that the command found are
    /// written back.
    open spec fn undo_spec(&self, reply: Reply) -> (Self, Action) {
        let (phase, step) = self.phase.undo_spec(local_flags_event(reply, self.mask));
        (NoncanonicalModeCommand { mask: self.mask, phase }, local_flags_action(step))
    }

    fn applied(&self) -> (applied: bool) {
        self.phase.applied()
    }

    fn execute(&mut self, reply: Reply) -> (action: Action) {
        let step = self.phase.execute(read_local_flags(reply, self.mask));
        act_on_local_flags(step)
    }

    fn undo(&mut self, reply: Reply) -> (action: Action) {
        let step = self.phase.undo(read_local_flags(reply, self.mask));
        act_on_local_flags(step)
    }
}

/// A reply as the raw mode command reads it. The mode that is to be written
/// is the raw mode that belongs to the mode found.
pub open spec fn terminal_mode_event(reply: Reply) -> Event<Termios> {
    match reply {
        Reply::Start => Event::Start,
        Reply::TerminalMode(Some(mode)) => Event::Observed { found: mode, next: raw_mode_of(mode) },
        Reply::Done(ok) => Event::Completed(ok),
        _ => Event::Failed,
    }
}

/// The action that stands for a step on the mode of the terminal device.
pub open spec fn terminal_mode_action(step: Step<Termios>) -> Action {
    match step {
        Step::Read => Action::Call(Request::GetTerminalMode),
        Step::Write(mode) => Action::Call(Request::SetTerminalMode(mode)),
        Step::Finished(ok) => Action::Finished(ok),
    }
}

fn read_terminal_mode(reply: Reply) -> (event: Event<Termios>)
    ensures
        event == terminal_mode_event(reply),
{
    match reply {
        Reply::Start => Event::Start,
        Reply::TerminalMode(Some(mode)) => Event::Observed { found: mode, next: make_raw(mode) },
        Reply::Done(ok) => Event::Completed(ok),
        _ => Event::Failed,
    }
}

/// Says a step on the mode of the terminal device as an action.
pub fn act_on_terminal_mode(step: Step<Termios>) -> (action: Action)
    ensures
        action == terminal_mode_action(step),
{
    match step {
        Step::Read => Action::Call(Request::GetTerminalMode),
        Step::Write(mode) => Action::Call(Request::SetTerminalMode(mode)),
        Step::Finished(ok) => Action::Finished(ok),
    }
}

/// Switches the terminal device to raw mode, and back to the mode it had.
#[derive(Clone, Copy, Debug, PartialEq, Eq)]
pub struct EnableRawModeCommand {
    /// Where the command stands, with the mode it found.
    pub phase: Phase<Termios>,
}

impl EnableRawModeCommand {
    /// Registers a command that has not been executed, and returns its
    /// identity.
    pub fn new(context: &mut Context<Command>) -> (key: u64)
        ensures
            key == old(context).commands().len(),
            final(context).commands() == old(context).commands().push(
                Command::RawMode(EnableRawModeCommand { phase: Phase::Idle }),
            ),
            final(context).sweeping() == old(context).sweeping(),
    {
        context.register(Command::RawMode(EnableRawModeCommand { phase: Phase::Idle }))
    }

    /// The mode that the terminal device had before the command was executed,
    /// while the command keeps one.
    pub open spec fn original_mode(&self) -> Option<Termios> {
        self.phase.snapshot()
    }
}

impl ICommand for EnableRawModeCommand {
    open spec fn is_applied(&self) -> bool {
        self.phase.is_applied()
    }

    /// One step of executing: the mode is read, and the raw mode that belongs
    /// to it is written.
    open spec fn execute_spec(&self, reply: Reply) -> (Self, Action) {
        let (phase, step) = self.phase.execute_spec(terminal_mode_event(reply));
        (EnableRawModeCommand { phase }, terminal_mode_action(step))
    }

    /// One step of undoing: the mode that the command found is written back.
    open spec fn undo_spec(&self, reply: Reply) -> (Self, Action) {
        let (phase, step) = self.phase.undo_spec(terminal_mode_event(reply));
        (EnableRawModeCommand { phase }, terminal_mode_action(step))
    }

    fn applied(&self) -> (applied: bool) {
        self.phase.applied()
    }

    fn execute(&mut self, reply: Reply) -> (action: Action) {
        let step = self.phase.execute(read_terminal_mode(reply));
        act_on_terminal_mode(step)
    }

    fn undo(&mut self, reply: Reply) -> (action: Action) {
        let step = self.phase.undo(read_terminal_mode(reply));
        act_on_terminal_mode(step)
    }
}

/// Noncanonical mode that is set without failure and then undone without
/// failure leaves the local mode flags as they were, bit for bit. The flags
/// written in between differ from them in flags of the mask only.
pub proof fn lemma_noncanonical_undo_is_exact(command: NoncanonicalModeCommand, flags: u64)
    requires
        command.phase is Idle,
    ensures
        ({
            let (reading, first) = command.execute_spec(Reply::Start);
            let (writing, second) = reading.execute_spec(Reply::LocalFlags(Some(flags)));
            let (applied, third) = writing.execute_spec(Reply::Done(true));
            let (restoring, fourth) = applied.undo_spec(Reply::Start);
            let (undone, fifth) = restoring.undo_spec(Reply::Done(true));
            &&& first == Action::Call(Request::GetLocalFlags)
            &&& second == Action::Call(
                Request::SetLocalFlags(without_local_flags(flags, command.mask)),
            )
            &&& without_local_flags(flags, command.mask) & !command.mask == flags & !command.mask
            &&& without_local_flags(flags, command.mask) & command.mask == 0
            &&& third == Action::Finished(true)
            &&& applied.is_applied()
            &&& fourth == Action::Call(Request::SetLocalFlags(flags))
            &&& fifth == Action::Finished(true)
            &&& undone == command
        }),
{
    lemma_without_local_flags_keeps_the_rest(flags, command.mask);
}

/// Raw mode that is enabled without failure and then undone without failure
/// leaves the terminal device in the mode it had: the mode that the undo
/// writes is the mode that was read when the command was executed.
pub proof fn lemma_raw_mode_undo_is_exact(command: EnableRawModeCommand, mode: Termios)
    requires
        command.phase is Idle,
    ensures
        ({
            let (reading, first) = command.execute_spec(Reply::Start);
            let (writing, second) = reading.execute_spec(Reply::TerminalMode(Some(mode)));
            let (applied, third) = writing.execute_spec(Reply::Done(true));
            let (restoring, fourth) = applied.undo_spec(Reply::Start);
            let (undone, fifth) = restoring.undo_spec(Reply::Done(true));
            &&& first == Action::Call(Request::GetTerminalMode)
            &&& second == Action::Call(Request::SetTerminalMode(raw_mode_of(mode)))
            &&& third == Action::Finished(true)
            &&& applied.is_applied()
            &&& applied.original_mode() == Some(mode)
            &&& fourth == Action::Call(Request::SetTerminalMode(mode))
            &&& fifth == Action::Finished(true)
            &&& undone == command
        }),
{
}

} // verus!
