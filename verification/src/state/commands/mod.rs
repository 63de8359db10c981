//! Reversible commands: changes to the state of the terminal that can be taken
//! back exactly.
//!
//! A command never talks to the terminal itself. Its `execute` and `undo` are
//! state machines: each is handed the terminal's last [`Reply`], beginning with
//! [`Reply::Start`], and answers with the next [`Action`]. A command that
//! changes a mode keeps the mode it found as a snapshot, and its `undo` writes
//! that snapshot back unchanged.

pub mod unix_command;
pub mod win_commands;

use crate::kernel::{Action, Reply};
use crate::state::commands::unix_command::NoncanonicalModeCommand;
use crate::state::commands::win_commands::{EnableAnsiCommand, ToAlternateScreenBufferCommand};
use vstd::prelude::*;

verus! {

/// A reversible change to the state of the terminal.
pub trait ICommand: Sized {
    /// The command has been executed and not been undone since.
    spec fn is_applied(&self) -> bool;

    /// The command after `execute` took `reply`, and what it answered.
    spec fn execute_spec(&self, reply: Reply) -> (Self, Action);

    /// The command after `undo` took `reply`, and what it answered.
    spec fn undo_spec(&self, reply: Reply) -> (Self, Action);

    /// Tells whether the command is applied.
    fn applied(&self) -> (applied: bool)
        ensures
            applied == self.is_applied(),
    ;

    /// Takes the execution of the command one step further.
    fn execute(&mut self, reply: Reply) -> (action: Action)
        ensures
            (*final(self), action) == old(self).execute_spec(reply),
    ;

    /// Takes the undoing of the command one step further.
    fn undo(&mut self, reply: Reply) -> (action: Action)
        ensures
            (*final(self), action) == old(self).undo_spec(reply),
    ;
}

/// Where a command that changes a mode stands. `M` is the mode: a word of
/// flags, or the whole mode of a terminal device.
#[derive(Clone, Copy, Debug, PartialEq, Eq)]
pub enum Phase<M> {
    /// Not applied, nothing under way.
    Idle,
    /// Executing: the mode has been asked for.
    Reading,
    /// Executing: the new mode has been sent; the mode found is kept.
    Writing(M),
    /// Applied; the mode found before the change is kept.
    Applied(M),
    /// Undoing: the kept mode has been sent back.
    Restoring(M),
}

/// A reply, as a command that changes a mode reads it.
#[derive(Clone, Copy, Debug, PartialEq, Eq)]
pub enum Event<M> {
    /// The operation begins.
    Start,
    /// The mode was read: `found` is what it was, `next` what it is to become.
    Observed { found: M, next: M },
    /// The mode was sent, with or without success.
    Completed(bool),
    /// The mode could not be read, or the reply does not belong here.
    Failed,
}

/// What a command that changes a mode wants next.
#[derive(Clone, Copy, Debug, PartialEq, Eq)]
pub enum Step<M> {
    /// Read the mode.
    Read,
    /// Write this mode.
    Write(M),
    /// Over, with or without success.
    Finished(bool),
}

impl<M: Copy> Phase<M> {
    /// The change is in force: applied, or applied with an undo under way.
    pub open spec fn is_applied(self) -> bool {
        self is Applied || self is Restoring
    }

    /// The mode that was found before the change, while one is kept.
    pub open spec fn snapshot(self) -> Option<M> {
        match self {
            Phase::Writing(found) => Some(found),
            Phase::Applied(found) => Some(found),
            Phase::Restoring(found) => Some(found),
            _ => None,
        }
    }

    /// One step of executing. The mode is read, the mode found is kept and the
    /// next mode written, and the command is applied once the write has
    /// succeeded. A failed read or write, or an event out of turn, ends the
    /// execution and leaves the command not applied, with nothing kept. A
    /// command that is applied stays so: beginning again does nothing and
    /// succeeds.
    pub open spec fn execute_spec(self, event: Event<M>) -> (Phase<M>, Step<M>) {
        match self {
            Phase::Idle => match event {
                Event::Start => (Phase::Reading, Step::Read),
                _ => (Phase::Idle, Step::Finished(false)),
            },
            Phase::Reading => match event {
                Event::Observed { found, next } => (Phase::Writing(found), Step::Write(next)),
                _ => (Phase::Idle, Step::Finished(false)),
            },
            Phase::Writing(found) => match event {
                Event::Completed(true) => (Phase::Applied(found), Step::Finished(true)),
                _ => (Phase::Idle, Step::Finished(false)),
            },
            Phase::Applied(found) => match event {
                Event::Start => (Phase::Applied(found), Step::Finished(true)),
                _ => (Phase::Applied(found), Step::Finished(false)),
            },
            Phase::Restoring(found) => (Phase::Restoring(found), Step::Finished(false)),
        }
    }

    /// One step of undoing. Only an applied command is undone: the kept mode
    /// is written back as it is, and the command is no longer applied once
    /// that write has succeeded. When it fails the command stays applied.
    /// Anywhere else the command is left as it is and the step fails.
    pub open spec fn undo_spec(self, event: Event<M>) -> (Phase<M>, Step<M>) {
        match self {
            Phase::Applied(found) => match event {
                Event::Start => (Phase::Restoring(found), Step::Write(found)),
                _ => (Phase::Applied(found), Step::Finished(false)),
            },
            Phase::Restoring(found) => match event {
                Event::Completed(true) => (Phase::Idle, Step::Finished(true)),
                _ => (Phase::Applied(found), Step::Finished(false)),
            },
            _ => (self, Step::Finished(false)),
        }
    }

    /// Tells whether the change is in force.
    pub fn applied(&self) -> (applied: bool)
        ensures
            applied == self.is_applied(),
    {
        match self {
            Phase::Applied(_) => true,
            Phase::Restoring(_) => true,
            _ => false,
        }
    }

    /// Takes the execution one step further.
    pub fn execute(&mut self, event: Event<M>) -> (step: Step<M>)
        ensures
            (*final(self), step) == old(self).execute_spec(event),
    {
        let (next, step) = match *self {
            Phase::Idle => match event {
                Event::Start => (Phase::Reading, Step::Read),
                _ => (Phase::Idle, Step::Finished(false)),
            },
            Phase::Reading => match event {
                Event::Observed { found, next } => (Phase::Writing(found), Step::Write(next)),
                _ => (Phase::Idle, Step::Finished(false)),
            },
            Phase::Writing(found) => match event {
                Event::Completed(true) => (Phase::Applied(found), Step::Finished(true)),
                _ => (Phase::Idle, Step::Finished(false)),
            },
            Phase::Applied(found) => match event {
                Event::Start => (Phase::Applied(found), Step::Finished(true)),
                _ => (Phase::Applied(found), Step::Finished(false)),
            },
            Phase::Restoring(found) => (Phase::Restoring(found), Step::Finished(false)),
        };
        *self = next;
        step
    }

    /// Takes the undoing one step further.
    pub fn undo(&mut self, event: Event<M>) -> (step: Step<M>)
        ensures
            (*final(self), step) == old(self).undo_spec(event),
    {
        let (next, step) = match *self {
            Phase::Applied(found) => match event {
                Event::Start => (Phase::Restoring(found), Step::Write(found)),
                _ => (Phase::Applied(found), Step::Finished(false)),
            },
            Phase::Restoring(found) => match event {
                Event::Completed(true) => (Phase::Idle, Step::Finished(true)),
                _ => (Phase::Applied(found), Step::Finished(false)),
            },
            Phase::Idle => (Phase::Idle, Step::Finished(false)),
            Phase::Reading => (Phase::Reading, Step::Finished(false)),
            Phase::Writing(found) => (Phase::Writing(found), Step::Finished(false)),
        };
        *self = next;
        step
    }
}

/// A command that is executed without failure and then undone without failure
/// writes back, at the undo, exactly the mode that it found when it was
/// executed, whatever mode it wrote in between, and ends where it began.
pub proof fn lemma_undo_restores_what_execute_found<M: Copy>(found: M, next: M)
    ensures
        ({
            let (reading, first) = Phase::<M>::Idle.execute_spec(Event::Start);
            let (writing, second) = reading.execute_spec(Event::Observed { found, next });
            let (applied, third) = writing.execute_spec(Event::Completed(true));
            let (restoring, fourth) = applied.undo_spec(Event::Start);
            let (idle, fifth) = restoring.undo_spec(Event::Completed(true));
            &&& first == Step::<M>::Read
            &&& second == Step::Write(next)
            &&& third == Step::<M>::Finished(true)
            &&& applied.is_applied()
            &&& applied.snapshot() == Some(found)
            &&& fourth == Step::Write(found)
            &&& fifth == Step::<M>::Finished(true)
            &&& idle == Phase::<M>::Idle
        }),
{
}

/// Executing never leaves a command half applied: after any step it is either
/// under way, or applied with the mode it found kept, or not applied with
/// nothing kept; and it reports success only when it is applied.
pub proof fn lemma_execute_applies_or_leaves<M: Copy>(phase: Phase<M>, event: Event<M>)
    ensures
        ({
            let (after, step) = phase.execute_spec(event);
            &&& step == Step::<M>::Finished(true) ==> after is Applied
            &&& step == Step::<M>::Finished(false) && !phase.is_applied() ==> after
                == Phase::<M>::Idle
            &&& phase.is_applied() ==> after == phase
        }),
{
}

/// An undo touches only an applied command, and a command stays applied
/// until the terminal has confirmed that the snapshot is written back.
pub proof fn lemma_undo_needs_applied<M: Copy>(phase: Phase<M>, event: Event<M>)
    ensures
        ({
            let (after, step) = phase.undo_spec(event);
            &&& !phase.is_applied() ==> after == phase && step == Step::<M>::Finished(false)
            &&& phase.is_applied() && step != Step::<M>::Finished(true) ==> after.is_applied()
                && after.snapshot() == phase.snapshot()
            &&& step == Step::<M>::Finished(true) ==> phase is Restoring && event
                == Event::<M>::Completed(true) && !after.is_applied()
            &&& step matches Step::Write(mode) ==> phase.snapshot() == Some(mode)
        }),
{
}

/// Any one of the commands that are kept in the ledger of a process, so that
/// commands of different kinds can be registered side by side and be undone
/// in the order in which they were registered.
#[derive(Clone, Copy, Debug, PartialEq, Eq)]
pub enum Command {
    /// Escape sequences in the output of the console.
    EnableAnsi(EnableAnsiCommand),
    /// Noncanonical mode of a terminal device.
    NoncanonicalMode(NoncanonicalModeCommand),
    /// Raw mode of a terminal device.
    RawMode(unix_command::EnableRawModeCommand),
    /// Raw mode of the console input.
    ConsoleRawMode(win_commands::EnableRawModeCommand),
    /// The alternate screen of the console.
    AlternateScreen(ToAlternateScreenBufferCommand),
}

impl Command {
    /// The command is applied and no undo of it is under way.
    pub open spec fn is_settled(self) -> bool {
        match self {
            Command::EnableAnsi(command) => command.phase is Applied,
            Command::NoncanonicalMode(command) => command.phase is Applied,
            Command::RawMode(command) => command.phase is Applied,
            Command::ConsoleRawMode(command) => command.phase is Applied,
            Command::AlternateScreen(command) => command.phase is Alternate,
        }
    }
}

impl ICommand for Command {
    open spec fn is_applied(&self) -> bool {
        match self {
            Command::EnableAnsi(command) => command.is_applied(),
            Command::NoncanonicalMode(command) => command.is_applied(),
            Command::RawMode(command) => command.is_applied(),
            Command::ConsoleRawMode(command) => command.is_applied(),
            Command::AlternateScreen(command) => command.is_applied(),
        }
    }

    open spec fn execute_spec(&self, reply: Reply) -> (Self, Action) {
        match self {
            Command::EnableAnsi(command) => (
                Command::EnableAnsi(command.execute_spec(reply).0),
                command.execute_spec(reply).1,
            ),
            Command::NoncanonicalMode(command) => (
                Command::NoncanonicalMode(command.execute_spec(reply).0),
                command.execute_spec(reply).1,
            ),
            Command::RawMode(command) => (
                Command::RawMode(command.execute_spec(reply).0),
                command.execute_spec(reply).1,
            ),
            Command::ConsoleRawMode(command) => (
                Command::ConsoleRawMode(command.execute_spec(reply).0),
                command.execute_spec(reply).1,
            ),
            Command::AlternateScreen(command) => (
                Command::AlternateScreen(command.execute_spec(reply).0),
                command.execute_spec(reply).1,
            ),
        }
    }

    open spec fn undo_spec(&self, reply: Reply) -> (Self, Action) {
        match self {
            Command::EnableAnsi(command) => (
                Command::EnableAnsi(command.undo_spec(reply).0),
                command.undo_spec(reply).1,
            ),
            Command::NoncanonicalMode(command) => (
                Command::NoncanonicalMode(command.undo_spec(reply).0),
                command.undo_spec(reply).1,
            ),
            Command::RawMode(command) => (
                Command::RawMode(command.undo_spec(reply).0),
                command.undo_spec(reply).1,
            ),
            Command::ConsoleRawMode(command) => (
                Command::ConsoleRawMode(command.undo_spec(reply).0),
                command.undo_spec(reply).1,
            ),
            Command::AlternateScreen(command) => (
                Command::AlternateScreen(command.undo_spec(reply).0),
                command.undo_spec(reply).1,
            ),
        }
    }

    fn applied(&self) -> (applied: bool) {
        match self {
            Command::EnableAnsi(command) => command.applied(),
            Command::NoncanonicalMode(command) => command.applied(),
            Command::RawMode(command) => command.applied(),
            Command::ConsoleRawMode(command) => command.applied(),
            Command::AlternateScreen(command) => command.applied(),
        }
    }

    fn execute(&mut self, reply: Reply) -> (action: Action) {
        match self {
            Command::EnableAnsi(command) => command.execute(reply),
            Command::NoncanonicalMode(command) => command.execute(reply),
            Command::RawMode(command) => command.execute(reply),
            Command::ConsoleRawMode(command) => command.execute(reply),
            Command::AlternateScreen(command) => command.execute(reply),
        }
    }

    fn undo(&mut self, reply: Reply) -> (action: Action) {
        match self {
            Command::EnableAnsi(command) => command.undo(reply),
            Command::NoncanonicalMode(command) => command.undo(reply),
            Command::RawMode(command) => command.undo(reply),
            Command::ConsoleRawMode(command) => command.undo(reply),
            Command::AlternateScreen(command) => command.undo(reply),
        }
    }
}

} // verus!
