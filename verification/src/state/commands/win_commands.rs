//! The commands of the native console.

use crate::kernel::windows_kernel::ansi_support::{
    recorded,
    set_ansi_enabled,
    set_has_been_tried_to_enable,
    set_is_windows_ansi_supportable,
    untested,
    CapabilityState,
};
use crate::kernel::windows_kernel::kernel::is_valid_handle;
use crate::kernel::windows_kernel::kernel::INVALID_HANDLE_VALUE;
use crate::kernel::{Action, Coord, Fatal, Reply, Request, ScreenBuffer, SmallRect, StdStream};
use crate::state::commands::{Command, Event, ICommand, Phase, Step};
use crate::state::Context;
use vstd::prelude::*;

verus! {

/// Input mode flag: control keys are handled by the console.
pub const ENABLE_PROCESSED_INPUT: u32 = 0x0001;

/// Input mode flag: input is handed over line by line.
pub const ENABLE_LINE_INPUT: u32 = 0x0002;

/// Input mode flag: what is typed is echoed.
pub const ENABLE_ECHO_INPUT: u32 = 0x0004;

/// Output mode flag: escape sequences in the output are acted on.
pub const ENABLE_VIRTUAL_TERMINAL_PROCESSING: u32 = 0x0004;

/// A mode word with the flags of `mask` added.
pub open spec fn with_flags(word: u32, mask: u32) -> u32 {
    word | mask
}

/// A mode word with the flags of `mask` removed.
pub open spec fn without_flags(word: u32, mask: u32) -> u32 {
    word & !mask
}

/// Adding flags sets every flag of the mask and changes no other bit.
pub proof fn lemma_with_flags_keeps_the_rest(word: u32, mask: u32)
    ensures
        with_flags(word, mask) & mask == mask,
        with_flags(word, mask) & !mask == word & !mask,
{
    assert((word | mask) & mask == mask) by (bit_vector);
    assert((word | mask) & !mask == word & !mask) by (bit_vector);
}

/// Removing flags clears every flag of the mask and changes no other bit.
pub proof fn lemma_without_flags_keeps_the_rest(word: u32, mask: u32)
    ensures
        without_flags(word, mask) & mask == 0,
        without_flags(word, mask) & !mask == word & !mask,
{
    assert((word & !mask) & mask == 0) by (bit_vector);
    assert((word & !mask) & !mask == word & !mask) by (bit_vector);
}

/// A reply as a command reads it that adds the flags of `mask` to a console
/// mode word.
pub open spec fn adding_event(reply: Reply, mask: u32) -> Event<u32> {
    match reply {
        Reply::Start => Event::Start,
        Reply::ConsoleMode(Some(word)) => Event::Observed {
            found: word,
            next: with_flags(word, mask),
        },
        Reply::Done(ok) => Event::Completed(ok),
        _ => Event::Failed,
    }
}

/// A reply as a command reads it that removes the flags of `mask` from a
/// console mode word.
pub open spec fn removing_event(reply: Reply, mask: u32) -> Event<u32> {
    match reply {
        Reply::Start => Event::Start,
        Reply::ConsoleMode(Some(word)) => Event::Observed {
            found: word,
            next: without_flags(word, mask),
        },
        Reply::Done(ok) => Event::Completed(ok),
        _ => Event::Failed,
    }
}

/// The action that stands for a step on the mode word of a console stream.
pub open spec fn console_action(step: Step<u32>, stream: StdStream) -> Action {
    match step {
        Step::Read => Action::Call(Request::GetConsoleMode(stream)),
        Step::Write(word) => Action::Call(Request::SetConsoleMode(stream, word)),
        Step::Finished(ok) => Action::Finished(ok),
    }
}

fn read_adding(reply: Reply, mask: u32) -> (event: Event<u32>)
    ensures
        event == adding_event(reply, mask),
{
    match reply {
        Reply::Start => Event::Start,
        Reply::ConsoleMode(Some(word)) => Event::Observed { found: word, next: word | mask },
        Reply::Done(ok) => Event::Completed(ok),
        _ => Event::Failed,
    }
}

fn read_removing(reply: Reply, mask: u32) -> (event: Event<u32>)
    ensures
        event == removing_event(reply, mask),
{
    match reply {
        Reply::Start => Event::Start,
        Reply::ConsoleMode(Some(word)) => Event::Observed { found: word, next: word & !mask },
        Reply::Done(ok) => Event::Completed(ok),
        _ => Event::Failed,
    }
}

fn act_on_console(step: Step<u32>, stream: StdStream) -> (action: Action)
    ensures
        action == console_action(step, stream),
{
    match step {
        Step::Read => Action::Call(Request::GetConsoleMode(stream)),
        Step::Write(word) => Action::Call(Request::SetConsoleMode(stream, word)),
        Step::Finished(ok) => Action::Finished(ok),
    }
}

/// Switches on the processing of escape sequences in the output of the
/// console. Executing the command is at once the detection of whether the
/// console supports escape sequences, and the command carries the record of
/// what it found.
#[derive(Clone, Copy, Debug, PartialEq, Eq)]
pub struct EnableAnsiCommand {
    /// The flags that the command adds to the output mode.
    pub mask: u32,
    /// Where the command stands, with the output mode it found.
    pub phase: Phase<u32>,
    /// What the command has found out about the console.
    pub record: CapabilityState,
}

/// The record after a step of executing. An execution that has asked the
/// console for its mode and then ends records how it ended; no other step
/// changes the record.
pub open spec fn record_after_execute(
    before: Phase<u32>,
    step: Step<u32>,
    record: CapabilityState,
) -> CapabilityState {
    match step {
        Step::Finished(success) => if before is Reading || before is Writing {
            recorded(success)
        } else {
            record
        },
        _ => record,
    }
}

/// The record after a step of undoing. Once the mode that the command found
/// is written back, escape sequences are recorded as not enabled; no other
/// step changes the record.
pub open spec fn record_after_undo(step: Step<u32>, record: CapabilityState) -> CapabilityState {
    if step == Step::<u32>::Finished(true) {
        CapabilityState { is_ansi_on_windows_enabled: Some(false), ..record }
    } else {
        record
    }
}

/// A command that has not been executed and has found out nothing.
pub open spec fn untried() -> EnableAnsiCommand {
    EnableAnsiCommand {
        mask: ENABLE_VIRTUAL_TERMINAL_PROCESSING,
        phase: Phase::Idle,
        record: untested(),
    }
}

impl EnableAnsiCommand {
    /// A command that has not been executed.
    pub fn new() -> (command: EnableAnsiCommand)
        ensures
            command == untried(),
    {
        EnableAnsiCommand {
            mask: ENABLE_VIRTUAL_TERMINAL_PROCESSING,
            phase: Phase::Idle,
            record: CapabilityState::new(),
        }
    }

    /// Registers a command that has not been executed, and returns its
    /// identity.
    pub fn register(context: &mut Context<Command>) -> (key: u64)
        ensures
            key == old(context).commands().len(),
            final(context).commands() == old(context).commands().push(
                Command::EnableAnsi(untried()),
            ),
            final(context).sweeping() == old(context).sweeping(),
    {
        context.register(Command::EnableAnsi(EnableAnsiCommand::new()))
    }
}

impl ICommand for EnableAnsiCommand {
    open spec fn is_applied(&self) -> bool {
        self.phase.is_applied()
    }

    /// One step of executing: the output mode is read, and written back with
    /// the flags of the mask added. When the execution ends, how it ended is
    /// recorded.
    open spec fn execute_spec(&self, reply: Reply) -> (Self, Action) {
        let (phase, step) = self.phase.execute_spec(adding_event(reply, self.mask));
        (
            EnableAnsiCommand {
                mask: self.mask,
                phase,
                record: record_after_execute(self.phase, step, self.record),
            },
            console_action(step, StdStream::Output),
        )
    }

    /// One step of undoing. A command that is not applied has nothing to
    /// undo: it is left as it is, nothing is asked of the console, and the
    /// undo ends at once with success. Of an applied command the output mode
    /// that it found is written back, whatever the record says, and once that
    /// has succeeded escape sequences are recorded as not enabled.
    open spec fn undo_spec(&self, reply: Reply) -> (Self, Action) {
        if !self.phase.is_applied() {
            (*self, Action::Finished(true))
        } else {
            let (phase, step) = self.phase.undo_spec(adding_event(reply, self.mask));
            (
                EnableAnsiCommand {
                    mask: self.mask,
                    phase,
                    record: record_after_undo(step, self.record),
                },
                console_action(step, StdStream::Output),
            )
        }
    }

    fn applied(&self) -> (applied: bool) {
        self.phase.applied()
    }

    fn execute(&mut self, reply: Reply) -> (action: Action) {
        let asked = match self.phase {
            Phase::Reading => true,
            Phase::Writing(_) => true,
            _ => false,
        };
        let step = self.phase.execute(read_adding(reply, self.mask));
        match step {
            Step::Finished(success) => {
                if asked {
                    set_is_windows_ansi_supportable(&mut self.record, success);
                    set_ansi_enabled(&mut self.record, success);
                    set_has_been_tried_to_enable(&mut self.record, true);
                }
            },
            _ => {},
        }
        act_on_console(step, StdStream::Output)
    }

    fn undo(&mut self, reply: Reply) -> (action: Action) {
        if self.phase.applied() {
            let step = self.phase.undo(read_adding(reply, self.mask));
            match step {
                Step::Finished(true) => {
                    set_ansi_enabled(&mut self.record, false);
                },
                _ => {},
            }
            act_on_console(step, StdStream::Output)
        } else {
            Action::Finished(true)
        }
    }
}

/// Switches the console input to raw mode: no line editing, no handling of
/// control keys, no echo.
#[derive(Clone, Copy, Debug, PartialEq, Eq)]
pub struct EnableRawModeCommand {
    /// The flags that the command removes from the input mode.
    pub mask: u32,
    /// Where the command stands, with the input mode it found.
    pub phase: Phase<u32>,
}

/// The flags that raw mode removes from the input mode.
pub open spec fn raw_mode_mask() -> u32 {
    ENABLE_LINE_INPUT | ENABLE_PROCESSED_INPUT | ENABLE_ECHO_INPUT
}

/// The three flags are the three lowest bits of the input mode.
pub proof fn lemma_raw_mode_mask()
    ensures
        raw_mode_mask() == 0x0007,
{
    assert(0x0002u32 | 0x0001u32 | 0x0004u32 == 0x0007u32) by (bit_vector);
}

impl EnableRawModeCommand {
    /// Registers a command that has not been executed, and returns its
    /// identity.
    pub fn new(context: &mut Context<Command>) -> (key: u64)
        ensures
            key == old(context).commands().len(),
            final(context).commands() == old(context).commands().push(
                Command::ConsoleRawMode(
                    EnableRawModeCommand { mask: raw_mode_mask(), phase: Phase::Idle },
                ),
            ),
            final(context).sweeping() == old(context).sweeping(),
    {
        let command = EnableRawModeCommand {
            mask: ENABLE_LINE_INPUT | ENABLE_PROCESSED_INPUT | ENABLE_ECHO_INPUT,
            phase: Phase::Idle,
        };
        context.register(Command::ConsoleRawMode(command))
    }
}

impl ICommand for EnableRawModeCommand {
    open spec fn is_applied(&self) -> bool {
        self.phase.is_applied()
    }

    /// One step of executing: the input mode is read, and written back with
    /// the flags of the mask removed.
    open spec fn execute_spec(&self, reply: Reply) -> (Self, Action) {
        let (phase, step) = self.phase.execute_spec(removing_event(reply, self.mask));
        (EnableRawModeCommand { mask: self.mask, phase }, console_action(step, StdStream::Input))
    }

    /// One step of undoing: the input mode that the command found is written
    /// back.
    open spec fn undo_spec(&self, reply: Reply) -> (Self, Action) {
        let (phase, step) = self.phase.undo_spec(removing_event(reply, self.mask));
        (EnableRawModeCommand { mask: self.mask, phase }, console_action(step, StdStream::Input))
    }

    fn applied(&self) -> (applied: bool) {
        self.phase.applied()
    }

    fn execute(&mut self, reply: Reply) -> (action: Action) {
        let step = self.phase.execute(read_removing(reply, self.mask));
        act_on_console(step, StdStream::Input)
    }

    fn undo(&mut self, reply: Reply) -> (action: Action) {
        let step = self.phase.undo(read_removing(reply, self.mask));
        act_on_console(step, StdStream::Input)
    }
}

/// Where the switch to the alternate screen stands.
#[derive(Clone, Copy, Debug, PartialEq, Eq)]
pub enum ScreenPhase {
    /// The standard screen buffer is shown; nothing is under way.
    Main,
    /// Executing: a new screen buffer has been asked for.
    Creating,
    /// Executing: the block is being read from the standard buffer.
    Reading(isize),
    /// Executing: the block is being written to the new buffer.
    Writing(isize),
    /// Executing: the new buffer is being made the active one.
    Activating(isize),
    /// The new buffer is shown.
    Alternate(isize),
    /// Undoing: the standard buffer is being made the active one.
    Returning(isize),
}

/// The region of the standard buffer that is copied: its first two rows, eighty
/// columns wide.
pub open spec fn source_region() -> SmallRect {
    SmallRect { left: 0, top: 0, right: 79, bottom: 1 }
}

/// The region of the new buffer that the block is written to.
pub open spec fn target_region() -> SmallRect {
    SmallRect { left: 0, top: 10, right: 19, bottom: 11 }
}

/// The size of the transfer block, which holds 160 cells.
pub open spec fn block_size() -> Coord {
    Coord { x: 2, y: 80 }
}

/// The cell of the transfer block at which copying begins.
pub open spec fn block_origin() -> Coord {
    Coord { x: 0, y: 0 }
}

/// Switches to an alternate screen: a new screen buffer that holds a copy of
/// one fixed block of the standard buffer. Undoing shows the standard buffer
/// again.
#[derive(Clone, Copy, Debug, PartialEq, Eq)]
pub struct ToAlternateScreenBufferCommand {
    /// Where the command stands, with the handle of the buffer it created.
    pub phase: ScreenPhase,
}

impl ToAlternateScreenBufferCommand {
    /// A command that has not been executed.
    pub fn new() -> (command: ToAlternateScreenBufferCommand)
        ensures
            command.phase == ScreenPhase::Main,
    {
        ToAlternateScreenBufferCommand { phase: ScreenPhase::Main }
    }
}

impl ICommand for ToAlternateScreenBufferCommand {
    open spec fn is_applied(&self) -> bool {
        self.phase is Alternate || self.phase is Returning
    }

    /// One step of executing. A screen buffer is created, the block is read
    /// from the standard buffer and written to the new one, and at last the
    /// new buffer is made the active one. Any of the four that fails is fatal
    /// and leaves the standard buffer shown. On an applied command, beginning
    /// again does nothing and succeeds.
    open spec fn execute_spec(&self, reply: Reply) -> (Self, Action) {
        match self.phase {
            ScreenPhase::Main => match reply {
                Reply::Start => (
                    ToAlternateScreenBufferCommand { phase: ScreenPhase::Creating },
                    Action::Call(Request::CreateConsoleScreenBuffer),
                ),
                _ => (*self, Action::Finished(false)),
            },
            ScreenPhase::Creating => match reply {
                Reply::ScreenBuffer(handle) => if handle != INVALID_HANDLE_VALUE {
                    (
                        ToAlternateScreenBufferCommand { phase: ScreenPhase::Reading(handle) },
                        Action::Call(
                            Request::ReadConsoleOutput {
                                buffer_size: block_size(),
                                buffer_coord: block_origin(),
                                region: source_region(),
                            },
                        ),
                    )
                } else {
                    (
                        ToAlternateScreenBufferCommand { phase: ScreenPhase::Main },
                        Action::Fatal(Fatal::CreateScreenBuffer),
                    )
                },
                _ => (
                    ToAlternateScreenBufferCommand { phase: ScreenPhase::Main },
                    Action::Fatal(Fatal::CreateScreenBuffer),
                ),
            },
            ScreenPhase::Reading(handle) => match reply {
                Reply::Done(true) => (
                    ToAlternateScreenBufferCommand { phase: ScreenPhase::Writing(handle) },
                    Action::Call(
                        Request::WriteConsoleOutput {
                            target: handle,
                            buffer_size: block_size(),
                            buffer_coord: block_origin(),
                            region: target_region(),
                        },
                    ),
                ),
                _ => (
                    ToAlternateScreenBufferCommand { phase: ScreenPhase::Main },
                    Action::Fatal(Fatal::ReadConsoleOutput),
                ),
            },
            ScreenPhase::Writing(handle) => match reply {
                Reply::Done(true) => (
                    ToAlternateScreenBufferCommand { phase: ScreenPhase::Activating(handle) },
                    Action::Call(Request::SetActiveScreenBuffer(ScreenBuffer::Created(handle))),
                ),
                _ => (
                    ToAlternateScreenBufferCommand { phase: ScreenPhase::Main },
                    Action::Fatal(Fatal::WriteConsoleOutput),
                ),
            },
            ScreenPhase::Activating(handle) => match reply {
                Reply::Done(true) => (
                    ToAlternateScreenBufferCommand { phase: ScreenPhase::Alternate(handle) },
                    Action::Finished(true),
                ),
                _ => (
                    ToAlternateScreenBufferCommand { phase: ScreenPhase::Main },
                    Action::Fatal(Fatal::ActiveScreenBuffer),
                ),
            },
            ScreenPhase::Alternate(_) => match reply {
                Reply::Start => (*self, Action::Finished(true)),
                _ => (*self, Action::Finished(false)),
            },
            ScreenPhase::Returning(_) => (*self, Action::Finished(false)),
        }
    }

    /// One step of undoing: the standard buffer is made the active one again.
    /// When that fails the condition is fatal and the command stays applied.
    /// A command that is not applied is left as it is, and the step fails.
    open spec fn undo_spec(&self, reply: Reply) -> (Self, Action) {
        match self.phase {
            ScreenPhase::Alternate(handle) => match reply {
                Reply::Start => (
                    ToAlternateScreenBufferCommand { phase: ScreenPhase::Returning(handle) },
                    Action::Call(Request::SetActiveScreenBuffer(ScreenBuffer::Standard)),
                ),
                _ => (*self, Action::Finished(false)),
            },
            ScreenPhase::Returning(handle) => match reply {
                Reply::Done(true) => (
                    ToAlternateScreenBufferCommand { phase: ScreenPhase::Main },
                    Action::Finished(true),
                ),
                _ => (
                    ToAlternateScreenBufferCommand { phase: ScreenPhase::Alternate(handle) },
                    Action::Fatal(Fatal::ActiveScreenBuffer),
                ),
            },
            _ => (*self, Action::Finished(false)),
        }
    }

    fn applied(&self) -> (applied: bool) {
        match self.phase {
            ScreenPhase::Alternate(_) => true,
            ScreenPhase::Returning(_) => true,
            _ => false,
        }
    }

    fn execute(&mut self, reply: Reply) -> (action: Action) {
        let (phase, action) = match self.phase {
            ScreenPhase::Main => match reply {
                Reply::Start => (
                    ScreenPhase::Creating,
                    Action::Call(Request::CreateConsoleScreenBuffer),
                ),
                _ => (ScreenPhase::Main, Action::Finished(false)),
            },
            ScreenPhase::Creating => match reply {
                Reply::ScreenBuffer(handle) => {
                    if is_valid_handle(handle) {
                        (
                            ScreenPhase::Reading(handle),
                            Action::Call(
                                Request::ReadConsoleOutput {
                                    buffer_size: Coord { x: 2, y: 80 },
                                    buffer_coord: Coord { x: 0, y: 0 },
                                    region: SmallRect { left: 0, top: 0, right: 79, bottom: 1 },
                                },
                            ),
                        )
                    } else {
                        (ScreenPhase::Main, Action::Fatal(Fatal::CreateScreenBuffer))
                    }
                },
                _ => (ScreenPhase::Main, Action::Fatal(Fatal::CreateScreenBuffer)),
            },
            ScreenPhase::Reading(handle) => match reply {
                Reply::Done(true) => (
                    ScreenPhase::Writing(handle),
                    Action::Call(
                        Request::WriteConsoleOutput {
                            target: handle,
                            buffer_size: Coord { x: 2, y: 80 },
                            buffer_coord: Coord { x: 0, y: 0 },
                            region: SmallRect { left: 0, top: 10, right: 19, bottom: 11 },
                        },
                    ),
                ),
                _ => (ScreenPhase::Main, Action::Fatal(Fatal::ReadConsoleOutput)),
            },
            ScreenPhase::Writing(handle) => match reply {
                Reply::Done(true) => (
                    ScreenPhase::Activating(handle),
                    Action::Call(Request::SetActiveScreenBuffer(ScreenBuffer::Created(handle))),
                ),
                _ => (ScreenPhase::Main, Action::Fatal(Fatal::WriteConsoleOutput)),
            },
            ScreenPhase::Activating(handle) => match reply {
                Reply::Done(true) => (ScreenPhase::Alternate(handle), Action::Finished(true)),
                _ => (ScreenPhase::Main, Action::Fatal(Fatal::ActiveScreenBuffer)),
            },
            ScreenPhase::Alternate(handle) => match reply {
                Reply::Start => (ScreenPhase::Alternate(handle), Action::Finished(true)),
                _ => (ScreenPhase::Alternate(handle), Action::Finished(false)),
            },
            ScreenPhase::Returning(handle) => (
                ScreenPhase::Returning(handle),
                Action::Finished(false),
            ),
        };
        self.phase = phase;
        action
    }

    fn undo(&mut self, reply: Reply) -> (action: Action) {
        let (phase, action) = match self.phase {
            ScreenPhase::Alternate(handle) => match reply {
                Reply::Start => (
                    ScreenPhase::Returning(handle),
                    Action::Call(Request::SetActiveScreenBuffer(ScreenBuffer::Standard)),
                ),
                _ => (ScreenPhase::Alternate(handle), Action::Finished(false)),
            },
            ScreenPhase::Returning(handle) => match reply {
                Reply::Done(true) => (ScreenPhase::Main, Action::Finished(true)),
                _ => (ScreenPhase::Alternate(handle), Action::Fatal(Fatal::ActiveScreenBuffer)),
            },
            other => (other, Action::Finished(false)),
        };
        self.phase = phase;
        action
    }
}

/// Raw mode that is enabled without failure and then undone without failure
/// leaves the input mode of the console as it was, bit for bit: the word that
/// the undo writes is the word that was read before the flags were removed.
/// The word written in between differs from it in flags of the mask only.
pub proof fn lemma_raw_mode_undo_is_exact(command: EnableRawModeCommand, word: u32)
    requires
        command.phase is Idle,
    ensures
        ({
            let (reading, first) = command.execute_spec(Reply::Start);
            let (writing, second) = reading.execute_spec(Reply::ConsoleMode(Some(word)));
            let (applied, third) = writing.execute_spec(Reply::Done(true));
            let (restoring, fourth) = applied.undo_spec(Reply::Start);
            let (undone, fifth) = restoring.undo_spec(Reply::Done(true));
            &&& first == Action::Call(Request::GetConsoleMode(StdStream::Input))
            &&& second == Action::Call(
                Request::SetConsoleMode(StdStream::Input, without_flags(word, command.mask)),
            )
            &&& without_flags(word, command.mask) & !command.mask == word & !command.mask
            &&& without_flags(word, command.mask) & command.mask == 0
            &&& third == Action::Finished(true)
            &&& applied.is_applied()
            &&& applied.phase.snapshot() == Some(word)
            &&& fourth == Action::Call(Request::SetConsoleMode(StdStream::Input, word))
            &&& fifth == Action::Finished(true)
            &&& undone == command
        }),
{
    lemma_without_flags_keeps_the_rest(word, command.mask);
}

/// Escape sequences that are enabled without failure and then disabled
/// without failure leave the output mode of the console as it was, bit for
/// bit, whatever the command had recorded before and whether or not the mode
/// had the flag already. The command ends where it began, with support and
/// the attempt recorded and escape sequences recorded as not enabled.
pub proof fn lemma_ansi_undo_is_exact(command: EnableAnsiCommand, word: u32)
    requires
        command.phase is Idle,
    ensures
        ({
            let (reading, first) = command.execute_spec(Reply::Start);
            let (writing, second) = reading.execute_spec(Reply::ConsoleMode(Some(word)));
            let (applied, third) = writing.execute_spec(Reply::Done(true));
            let (restoring, fourth) = applied.undo_spec(Reply::Start);
            let (undone, fifth) = restoring.undo_spec(Reply::Done(true));
            &&& first == Action::Call(Request::GetConsoleMode(StdStream::Output))
            &&& second == Action::Call(
                Request::SetConsoleMode(StdStream::Output, with_flags(word, command.mask)),
            )
            &&& with_flags(word, command.mask) & !command.mask == word & !command.mask
            &&& third == Action::Finished(true)
            &&& applied.is_applied()
            &&& applied.record == recorded(true)
            &&& fourth == Action::Call(Request::SetConsoleMode(StdStream::Output, word))
            &&& restoring.is_applied()
            &&& fifth == Action::Finished(true)
            &&& !undone.is_applied()
            &&& undone.phase == command.phase
            &&& undone.mask == command.mask
            &&& undone.record == (CapabilityState {
                is_ansi_on_windows_enabled: Some(false),
                ..recorded(true)
            })
            &&& undone.undo_spec(Reply::Start) == (undone, Action::Finished(true))
        }),
{
    lemma_with_flags_keeps_the_rest(word, command.mask);
}

/// Undoing an escape command that is not applied, because it was never
/// executed or is undone already, succeeds at once: nothing is asked of the
/// console, and the command and its record are left as they are. So undoing
/// twice does to the console what undoing once does.
pub proof fn lemma_ansi_undo_of_what_is_not_applied(command: EnableAnsiCommand, reply: Reply)
    requires
        !command.is_applied(),
    ensures
        command.undo_spec(reply) == (command, Action::Finished(true)),
{
}

/// An applied escape command is undone whatever its record says: the undo
/// begins with the write of the mode that the command found.
pub proof fn lemma_ansi_undo_goes_by_the_phase(command: EnableAnsiCommand, word: u32)
    requires
        command.phase == Phase::Applied(word),
    ensures
        command.undo_spec(Reply::Start).1 == Action::Call(
            Request::SetConsoleMode(StdStream::Output, word),
        ),
        command.undo_spec(Reply::Start).0.record == command.record,
{
}

} // verus!
