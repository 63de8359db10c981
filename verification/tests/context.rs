use crossterm::kernel::{Action, Reply, Request, ScreenBuffer, StdStream};
use crossterm::state::commands::unix_command::NoncanonicalModeCommand;
use crossterm::state::commands::win_commands::{
    EnableAnsiCommand, EnableRawModeCommand, ScreenPhase, ToAlternateScreenBufferCommand,
};
use crossterm::state::commands::{Command, Phase};
use crossterm::state::Context;

fn command(mask: u32) -> EnableRawModeCommand {
    EnableRawModeCommand { mask, phase: Phase::Idle }
}

fn apply(context: &mut Context<EnableRawModeCommand>, key: u64, word: u32) {
    assert!(matches!(context.execute(key, Reply::Start), Some(Action::Call(_))));
    assert!(matches!(context.execute(key, Reply::ConsoleMode(Some(word))), Some(Action::Call(_))));
    assert_eq!(context.execute(key, Reply::Done(true)), Some(Action::Finished(true)));
}

fn restore(word: u32) -> Action {
    Action::Call(Request::SetConsoleMode(StdStream::Input, word))
}

#[test]
fn a_new_context_is_empty() {
    let context: Context<EnableRawModeCommand> = Context::new();
    assert_eq!(context.len(), 0);
    assert_eq!(context.undoing(), None);
    assert!(context.all_undone());
    assert_eq!(context.applied(0), None);
}

#[test]
fn identities_count_up_and_never_repeat() {
    let mut context = Context::new();
    assert_eq!(context.register(command(1)), 0);
    assert_eq!(context.register(command(2)), 1);
    assert_eq!(context.register(command(4)), 2);
    assert_eq!(context.len(), 3);
    apply(&mut context, 1, 0xff);
    context.undo(1, Reply::Start);
    context.undo(1, Reply::Done(true));
    assert_eq!(context.register(command(8)), 3);
    assert_eq!(context.len(), 4);
}

#[test]
fn an_unknown_identity_changes_nothing() {
    let mut context = Context::new();
    let key = context.register(command(1));
    apply(&mut context, key, 0xff);
    assert_eq!(context.undo(7, Reply::Start), None);
    assert_eq!(context.execute(7, Reply::Start), None);
    assert_eq!(context.applied(7), None);
    assert_eq!(context.len(), 1);
    assert_eq!(context.applied(key), Some(true));
    assert_eq!(context.undo(key, Reply::Start), Some(restore(0xff)));
}

#[test]
fn undo_undoes_exactly_the_command_that_is_named() {
    let mut context = Context::new();
    let first = context.register(command(1));
    let second = context.register(command(2));
    apply(&mut context, first, 0x11);
    apply(&mut context, second, 0x22);
    assert_eq!(context.undo(first, Reply::Start), Some(restore(0x11)));
    assert_eq!(context.undo(first, Reply::Done(true)), Some(Action::Finished(true)));
    assert_eq!(context.applied(first), Some(false));
    assert_eq!(context.applied(second), Some(true));
    assert!(!context.all_undone());
}

#[test]
fn enabling_raw_mode_and_undoing_it_restores_the_mode_word() {
    let mut context: Context<Command> = Context::new();
    let key = EnableRawModeCommand::new(&mut context);
    assert_eq!(
        context.execute(key, Reply::Start),
        Some(Action::Call(Request::GetConsoleMode(StdStream::Input)))
    );
    let before: u32 = 0x01f7;
    assert_eq!(
        context.execute(key, Reply::ConsoleMode(Some(before))),
        Some(Action::Call(Request::SetConsoleMode(StdStream::Input, 0x01f0)))
    );
    assert_eq!(context.execute(key, Reply::Done(true)), Some(Action::Finished(true)));
    assert_eq!(context.len(), 1);
    assert_eq!(context.applied(key), Some(true));
    assert_eq!(
        context.undo(key, Reply::Start),
        Some(Action::Call(Request::SetConsoleMode(StdStream::Input, before)))
    );
    assert_eq!(context.undo(key, Reply::Done(true)), Some(Action::Finished(true)));
    assert_eq!(context.applied(key), Some(false));
    assert_eq!(context.len(), 1);
}

#[test]
fn undo_all_undoes_the_last_registered_first() {
    let mut context = Context::new();
    let a = context.register(command(1));
    let b = context.register(command(2));
    let c = context.register(command(4));
    apply(&mut context, a, 0xa7);
    apply(&mut context, b, 0xb7);
    apply(&mut context, c, 0xc7);
    assert_eq!(context.undo_all(Reply::Start), restore(0xc7));
    assert_eq!(context.undoing(), Some(c));
    assert_eq!(context.undo_all(Reply::Done(true)), restore(0xb7));
    assert_eq!(context.undoing(), Some(b));
    assert_eq!(context.applied(c), Some(false));
    assert_eq!(context.undo_all(Reply::Done(true)), restore(0xa7));
    assert_eq!(context.undoing(), Some(a));
    assert_eq!(context.undo_all(Reply::Done(true)), Action::Finished(true));
    assert_eq!(context.undoing(), None);
    assert!(context.all_undone());
}

#[test]
fn undo_all_passes_over_what_is_not_applied() {
    let mut context = Context::new();
    let a = context.register(command(1));
    let b = context.register(command(2));
    let c = context.register(command(4));
    let d = context.register(command(8));
    apply(&mut context, a, 0xa7);
    apply(&mut context, c, 0xc7);
    assert_eq!(context.applied(b), Some(false));
    assert_eq!(context.applied(d), Some(false));
    assert_eq!(context.undo_all(Reply::Start), restore(0xc7));
    assert_eq!(context.undoing(), Some(c));
    assert_eq!(context.undo_all(Reply::Done(true)), restore(0xa7));
    assert_eq!(context.undoing(), Some(a));
    assert_eq!(context.undo_all(Reply::Done(true)), Action::Finished(true));
}

#[test]
fn undo_all_on_nothing_finishes_at_once() {
    let mut context: Context<EnableRawModeCommand> = Context::new();
    assert_eq!(context.undo_all(Reply::Start), Action::Finished(true));
    context.register(command(1));
    assert_eq!(context.undo_all(Reply::Start), Action::Finished(true));
    assert_eq!(context.undoing(), None);
}

#[test]
fn undo_all_goes_on_after_an_undo_that_failed() {
    let mut context = Context::new();
    let a = context.register(command(1));
    let b = context.register(command(2));
    apply(&mut context, a, 0xa7);
    apply(&mut context, b, 0xb7);
    assert_eq!(context.undo_all(Reply::Start), restore(0xb7));
    assert_eq!(context.undo_all(Reply::Done(false)), restore(0xa7));
    assert_eq!(context.applied(b), Some(true));
    assert_eq!(context.undo_all(Reply::Done(true)), Action::Finished(false));
    assert_eq!(context.applied(a), Some(false));
    assert!(!context.all_undone());
    assert_eq!(context.undoing(), None);
}

#[test]
fn undo_all_is_begun_with_start_only() {
    let mut context = Context::new();
    let a = context.register(command(1));
    apply(&mut context, a, 0xa7);
    assert_eq!(context.undo_all(Reply::Done(true)), Action::Finished(false));
    assert_eq!(context.applied(a), Some(true));
    assert_eq!(context.undoing(), None);
}

#[test]
fn a_command_registered_during_a_sweep_is_left_alone() {
    let mut context = Context::new();
    let a = context.register(command(1));
    apply(&mut context, a, 0xa7);
    assert_eq!(context.undo_all(Reply::Start), restore(0xa7));
    let b = context.register(command(2));
    assert_eq!(context.undoing(), Some(a));
    assert_eq!(context.undo_all(Reply::Done(true)), Action::Finished(true));
    assert_eq!(context.applied(b), Some(false));
}

#[test]
fn undo_all_stops_at_a_fatal_condition() {
    let mut context = Context::new();
    let a = context.register(ToAlternateScreenBufferCommand { phase: ScreenPhase::Alternate(5) });
    let b = context.register(ToAlternateScreenBufferCommand { phase: ScreenPhase::Alternate(6) });
    assert_eq!(
        context.undo_all(Reply::Start),
        Action::Call(Request::SetActiveScreenBuffer(ScreenBuffer::Standard))
    );
    assert_eq!(context.undoing(), Some(b));
    assert!(matches!(context.undo_all(Reply::Done(false)), Action::Fatal(_)));
    assert_eq!(context.undoing(), None);
    assert_eq!(context.applied(a), Some(true));
    assert_eq!(context.applied(b), Some(true));
}

#[test]
fn commands_of_different_kinds_are_undone_in_one_order() {
    let mut context: Context<Command> = Context::new();
    let local = NoncanonicalModeCommand::with_mask(&mut context, 0x8a);
    let raw = EnableRawModeCommand::new(&mut context);
    let screen = context.register(Command::AlternateScreen(ToAlternateScreenBufferCommand {
        phase: ScreenPhase::Alternate(9),
    }));
    assert_eq!((local, raw, screen), (0, 1, 2));
    context.execute(local, Reply::Start);
    context.execute(local, Reply::LocalFlags(Some(0x8a3b)));
    assert_eq!(context.execute(local, Reply::Done(true)), Some(Action::Finished(true)));
    context.execute(raw, Reply::Start);
    context.execute(raw, Reply::ConsoleMode(Some(0x1f7)));
    assert_eq!(context.execute(raw, Reply::Done(true)), Some(Action::Finished(true)));
    assert_eq!(
        context.undo_all(Reply::Start),
        Action::Call(Request::SetActiveScreenBuffer(ScreenBuffer::Standard))
    );
    assert_eq!(context.undoing(), Some(screen));
    assert_eq!(
        context.undo_all(Reply::Done(true)),
        Action::Call(Request::SetConsoleMode(StdStream::Input, 0x1f7))
    );
    assert_eq!(context.undoing(), Some(raw));
    assert_eq!(
        context.undo_all(Reply::Done(true)),
        Action::Call(Request::SetLocalFlags(0x8a3b))
    );
    assert_eq!(context.undoing(), Some(local));
    assert_eq!(context.undo_all(Reply::Done(true)), Action::Finished(true));
    assert!(context.all_undone());
    assert_eq!(context.len(), 3);
}

#[test]
fn raw_mode_enabled_after_escape_support_is_unwound_first() {
    let mut context: Context<Command> = Context::new();
    let escape = EnableAnsiCommand::register(&mut context);
    let raw = EnableRawModeCommand::new(&mut context);
    assert_eq!((escape, raw), (0, 1));
    context.execute(escape, Reply::Start);
    context.execute(escape, Reply::ConsoleMode(Some(0x0003)));
    assert_eq!(context.execute(escape, Reply::Done(true)), Some(Action::Finished(true)));
    context.execute(raw, Reply::Start);
    context.execute(raw, Reply::ConsoleMode(Some(0x01f7)));
    assert_eq!(context.execute(raw, Reply::Done(true)), Some(Action::Finished(true)));
    assert_eq!(
        context.undo_all(Reply::Start),
        Action::Call(Request::SetConsoleMode(StdStream::Input, 0x01f7))
    );
    assert_eq!(context.undoing(), Some(raw));
    assert_eq!(
        context.undo_all(Reply::Done(true)),
        Action::Call(Request::SetConsoleMode(StdStream::Output, 0x0003))
    );
    assert_eq!(context.undoing(), Some(escape));
    assert_eq!(context.undo_all(Reply::Done(true)), Action::Finished(true));
    assert!(context.all_undone());
    match context.get(escape) {
        Some(Command::EnableAnsi(command)) => {
            assert_eq!(command.record.is_ansi_on_windows_enabled, Some(false));
            assert_eq!(command.record.does_windows_support_ansi, Some(true));
        }
        other => panic!("{:?}", other),
    }
}
