use crossterm::kernel::windows_kernel::ansi_support::{
    ansi_enabled, capability, has_been_tried_to_enable, set_ansi_enabled,
    try_enable_ansi_support, windows_supportable, CapabilityState,
};
use crossterm::kernel::windows_kernel::kernel::ScreenBufferInfo;
use crossterm::kernel::{Action, Coord, Fatal, Query, Reply, Request, SmallRect, StdStream};
use crossterm::shared::functions::{
    choose_backend, get_cursor_position, get_module, get_terminal_size, position_in, Backend,
    BackendSelector, Contract, Platform, Resolution,
};
use crossterm::state::commands::win_commands::{EnableAnsiCommand, EnableRawModeCommand};
use crossterm::state::commands::Command;
use crossterm::state::Context;

fn detect_with(
    command: &mut EnableAnsiCommand,
    mode: Option<u32>,
    written: bool,
    support: &mut CapabilityState,
) -> bool {
    let mut reply = Reply::Start;
    loop {
        let action = try_enable_ansi_support(command, reply);
        *support = command.record;
        match action {
            Action::Call(Request::GetConsoleMode(StdStream::Output)) => {
                reply = Reply::ConsoleMode(mode)
            }
            Action::Call(Request::SetConsoleMode(StdStream::Output, _)) => {
                reply = Reply::Done(written)
            }
            Action::Finished(success) => return success,
            other => panic!("{:?}", other),
        }
    }
}

fn detect(mode: Option<u32>, written: bool, support: &mut CapabilityState) -> bool {
    detect_with(&mut EnableAnsiCommand::new(), mode, written, support)
}

fn ledger() -> (Context<Command>, u64) {
    let mut context = Context::new();
    let key = EnableAnsiCommand::register(&mut context);
    (context, key)
}

fn supported(yes: bool) -> CapabilityState {
    CapabilityState {
        has_been_tried_to_enable: true,
        is_ansi_on_windows_enabled: Some(yes),
        does_windows_support_ansi: Some(yes),
    }
}

fn info(window: SmallRect, cursor: Coord) -> ScreenBufferInfo {
    ScreenBufferInfo {
        size: Coord { x: 120, y: 9001 },
        cursor_position: cursor,
        attributes: 7,
        window,
        maximum_window_size: Coord { x: 240, y: 63 },
    }
}

#[test]
fn nothing_is_known_before_a_detection() {
    let state = CapabilityState::new();
    assert!(!ansi_enabled(&state));
    assert!(!windows_supportable(&state));
    assert!(!has_been_tried_to_enable(&state));
}

#[test]
fn detection_records_support() {
    let mut state = CapabilityState::new();
    assert!(detect(Some(3), true, &mut state));
    assert_eq!(state, supported(true));
    assert!(ansi_enabled(&state));
    assert!(windows_supportable(&state));
    assert!(has_been_tried_to_enable(&state));
}

#[test]
fn detection_records_the_lack_of_support() {
    let mut unreadable = CapabilityState::new();
    assert!(!detect(None, true, &mut unreadable));
    assert_eq!(unreadable, supported(false));
    let mut unwritable = CapabilityState::new();
    assert!(!detect(Some(3), false, &mut unwritable));
    assert_eq!(unwritable, supported(false));
    assert!(has_been_tried_to_enable(&unwritable));
    assert!(!windows_supportable(&unwritable));
}

#[test]
fn detecting_twice_gives_what_detecting_once_gives() {
    for (mode, written) in [(Some(3u32), true), (Some(3), false), (None, true), (None, false)] {
        let mut once = CapabilityState::new();
        detect(mode, written, &mut once);
        let mut twice = CapabilityState::new();
        detect(mode, written, &mut twice);
        let again = mode.map(|word| word | 4);
        detect(again, written, &mut twice);
        assert_eq!(windows_supportable(&once), windows_supportable(&twice));
        assert_eq!(once, twice);
        let mut command = EnableAnsiCommand::new();
        let mut same = CapabilityState::new();
        detect_with(&mut command, mode, written, &mut same);
        detect_with(&mut command, again, written, &mut same);
        assert_eq!(once, same);
    }
}

#[test]
fn detection_leaves_the_record_alone_until_it_finishes() {
    let mut command = EnableAnsiCommand::new();
    assert!(matches!(try_enable_ansi_support(&mut command, Reply::Start), Action::Call(_)));
    assert_eq!(command.record, CapabilityState::new());
    assert!(matches!(
        try_enable_ansi_support(&mut command, Reply::ConsoleMode(Some(0))),
        Action::Call(_)
    ));
    assert_eq!(command.record, CapabilityState::new());
}

#[test]
fn set_ansi_enabled_changes_that_field_only() {
    let mut state = supported(true);
    set_ansi_enabled(&mut state, false);
    assert_eq!(
        state,
        CapabilityState {
            has_been_tried_to_enable: true,
            is_ansi_on_windows_enabled: Some(false),
            does_windows_support_ansi: Some(true),
        }
    );
}

#[test]
fn get_module_picks_by_platform_and_support() {
    let on_windows = |support: &CapabilityState| {
        get_module("native", "escape", Platform::Windows, support)
    };
    assert_eq!(on_windows(&supported(false)), Some("native"));
    assert_eq!(on_windows(&supported(true)), Some("escape"));
    assert_eq!(
        get_module("native", "escape", Platform::Windows, &CapabilityState::new()),
        Some("native")
    );
    assert_eq!(get_module("native", "escape", Platform::Unix, &supported(false)), Some("escape"));
    assert_eq!(get_module("native", "escape", Platform::Unix, &supported(true)), Some("escape"));
    assert_eq!(choose_backend(Platform::Windows, &supported(false)), Backend::WinApi);
    assert_eq!(choose_backend(Platform::Unix, &supported(false)), Backend::Ansi);
}

#[test]
fn resolution_on_unix_needs_no_detection() {
    let mut selector = BackendSelector::new(Platform::Unix);
    let mut context: Context<Command> = Context::new();
    assert_eq!(selector.chosen(Contract::Terminal), None);
    assert_eq!(
        selector.resolve(Contract::Terminal, &mut context, Reply::Start),
        Resolution::Resolved(Backend::Ansi)
    );
    assert_eq!(context.len(), 0);
    assert_eq!(selector.terminal, Some(Backend::Ansi));
    assert_eq!(selector.chosen(Contract::Terminal), Some(Backend::Ansi));
    assert_eq!(selector.cursor, None);
    assert_eq!(selector.color, None);
    assert_eq!(selector.probe, None);
}

#[test]
fn resolution_on_windows_detects_first() {
    let mut selector = BackendSelector::new(Platform::Windows);
    let mut context: Context<Command> = Context::new();
    let raw = EnableRawModeCommand::new(&mut context);
    assert_eq!(
        selector.resolve(Contract::Cursor, &mut context, Reply::Start),
        Resolution::Call(Request::GetConsoleMode(StdStream::Output))
    );
    assert_eq!(context.len(), 2);
    assert_eq!(selector.probe, Some(1));
    assert_eq!(
        selector.resolve(Contract::Cursor, &mut context, Reply::ConsoleMode(Some(1))),
        Resolution::Call(Request::SetConsoleMode(StdStream::Output, 5))
    );
    assert_eq!(selector.cursor, None);
    assert_eq!(context.len(), 2);
    assert_eq!(
        selector.resolve(Contract::Cursor, &mut context, Reply::Done(true)),
        Resolution::Resolved(Backend::Ansi)
    );
    assert_eq!(selector.cursor, Some(Backend::Ansi));
    assert_eq!(selector.probe, None);
    assert_eq!(capability(&context, 1), supported(true));
    assert_eq!(context.applied(1), Some(true));
    assert_eq!(context.applied(raw), Some(false));
    assert_eq!(context.len(), 2);
}

#[test]
fn resolution_falls_back_to_the_native_console() {
    let mut selector = BackendSelector::new(Platform::Windows);
    let mut context: Context<Command> = Context::new();
    selector.resolve(Contract::Color, &mut context, Reply::Start);
    assert_eq!(
        selector.resolve(Contract::Color, &mut context, Reply::ConsoleMode(None)),
        Resolution::Resolved(Backend::WinApi)
    );
    assert_eq!(selector.color, Some(Backend::WinApi));
    assert_eq!(capability(&context, 0), supported(false));
    assert_eq!(context.applied(0), Some(false));
    let mut unwritable = BackendSelector::new(Platform::Windows);
    unwritable.resolve(Contract::Color, &mut context, Reply::Start);
    unwritable.resolve(Contract::Color, &mut context, Reply::ConsoleMode(Some(3)));
    assert_eq!(
        unwritable.resolve(Contract::Color, &mut context, Reply::Done(false)),
        Resolution::Resolved(Backend::WinApi)
    );
    assert_eq!(capability(&context, 1), supported(false));
}

#[test]
fn every_detection_has_a_command_of_its_own() {
    let mut selector = BackendSelector::new(Platform::Windows);
    let mut context: Context<Command> = Context::new();
    selector.resolve(Contract::Cursor, &mut context, Reply::Start);
    selector.resolve(Contract::Cursor, &mut context, Reply::ConsoleMode(Some(3)));
    selector.resolve(Contract::Cursor, &mut context, Reply::Done(true));
    assert_eq!(context.len(), 1);
    assert_eq!(
        selector.resolve(Contract::Terminal, &mut context, Reply::Start),
        Resolution::Call(Request::GetConsoleMode(StdStream::Output))
    );
    assert_eq!(context.len(), 2);
    assert_eq!(
        selector.resolve(Contract::Terminal, &mut context, Reply::ConsoleMode(Some(7))),
        Resolution::Call(Request::SetConsoleMode(StdStream::Output, 7))
    );
    assert_eq!(
        selector.resolve(Contract::Terminal, &mut context, Reply::Done(true)),
        Resolution::Resolved(Backend::Ansi)
    );
    assert_eq!(
        context.undo_all(Reply::Start),
        Action::Call(Request::SetConsoleMode(StdStream::Output, 7))
    );
    assert_eq!(
        context.undo_all(Reply::Done(true)),
        Action::Call(Request::SetConsoleMode(StdStream::Output, 3))
    );
    assert_eq!(context.undo_all(Reply::Done(true)), Action::Finished(true));
}

#[test]
fn the_record_of_a_command_that_is_none_or_another_is_untested() {
    let mut context: Context<Command> = Context::new();
    let raw = EnableRawModeCommand::new(&mut context);
    assert_eq!(capability(&context, raw), CapabilityState::new());
    assert_eq!(capability(&context, 9), CapabilityState::new());
}

#[test]
fn a_resolution_is_kept_whatever_happens_later() {
    let mut selector = BackendSelector::new(Platform::Windows);
    let mut context: Context<Command> = Context::new();
    selector.resolve(Contract::Cursor, &mut context, Reply::Start);
    selector.resolve(Contract::Cursor, &mut context, Reply::ConsoleMode(None));
    assert_eq!(selector.cursor, Some(Backend::WinApi));
    let later = EnableAnsiCommand::register(&mut context);
    context.execute(later, Reply::Start);
    context.execute(later, Reply::ConsoleMode(Some(3)));
    assert_eq!(context.execute(later, Reply::Done(true)), Some(Action::Finished(true)));
    assert_eq!(capability(&context, later), supported(true));
    let held = selector;
    assert_eq!(
        selector.resolve(Contract::Cursor, &mut context, Reply::Start),
        Resolution::Resolved(Backend::WinApi)
    );
    assert_eq!(selector, held);
    assert_eq!(context.len(), 2);
    assert_eq!(context.applied(later), Some(true));
}

#[test]
fn a_failed_detection_does_not_keep_an_earlier_command_from_being_undone() {
    let (mut context, first) = ledger();
    context.execute(first, Reply::Start);
    context.execute(first, Reply::ConsoleMode(Some(3)));
    assert_eq!(context.execute(first, Reply::Done(true)), Some(Action::Finished(true)));
    let second = EnableAnsiCommand::register(&mut context);
    context.execute(second, Reply::Start);
    assert_eq!(context.execute(second, Reply::ConsoleMode(None)), Some(Action::Finished(false)));
    assert_eq!(capability(&context, second), supported(false));
    assert_eq!(
        context.undo(first, Reply::Start),
        Some(Action::Call(Request::SetConsoleMode(StdStream::Output, 3)))
    );
    assert_eq!(context.undo(first, Reply::Done(true)), Some(Action::Finished(true)));
    assert_eq!(context.applied(first), Some(false));
}

#[test]
fn terminal_size_on_windows_is_the_span_of_the_window() {
    let window = SmallRect { left: 0, top: 10, right: 119, bottom: 39 };
    assert_eq!(
        get_terminal_size(Platform::Windows, Reply::Start),
        Query::Call(Request::GetConsoleScreenBufferInfo)
    );
    assert_eq!(
        get_terminal_size(
            Platform::Windows,
            Reply::ScreenBufferInfo(Some(info(window, Coord { x: 0, y: 0 })))
        ),
        Query::Found(119, 29)
    );
    let inverted = SmallRect { left: 5, top: 5, right: 4, bottom: 5 };
    assert_eq!(
        get_terminal_size(
            Platform::Windows,
            Reply::ScreenBufferInfo(Some(info(inverted, Coord { x: 0, y: 0 })))
        ),
        Query::Found(0, 0)
    );
    let widest = SmallRect { left: i16::MIN, top: i16::MIN, right: i16::MAX, bottom: i16::MAX };
    assert_eq!(
        get_terminal_size(
            Platform::Windows,
            Reply::ScreenBufferInfo(Some(info(widest, Coord { x: 0, y: 0 })))
        ),
        Query::Found(65535, 65535)
    );
    assert_eq!(
        get_terminal_size(Platform::Windows, Reply::ScreenBufferInfo(None)),
        Query::Fatal(Fatal::ScreenBufferInfo)
    );
}

#[test]
fn terminal_size_on_unix_is_what_the_device_says() {
    assert_eq!(
        get_terminal_size(Platform::Unix, Reply::Start),
        Query::Call(Request::GetWindowSize)
    );
    assert_eq!(
        get_terminal_size(Platform::Unix, Reply::WindowSize(Some((80, 24)))),
        Query::Found(80, 24)
    );
    assert_eq!(get_terminal_size(Platform::Unix, Reply::WindowSize(None)), Query::Found(0, 0));
    assert_eq!(get_terminal_size(Platform::Unix, Reply::Done(true)), Query::Found(0, 0));
}

#[test]
fn cursor_position_by_platform() {
    let window = SmallRect { left: 0, top: 0, right: 119, bottom: 29 };
    assert_eq!(
        get_cursor_position(Platform::Windows, Reply::Start),
        Query::Call(Request::GetConsoleScreenBufferInfo)
    );
    assert_eq!(
        get_cursor_position(
            Platform::Windows,
            Reply::ScreenBufferInfo(Some(info(window, Coord { x: 3, y: 7 })))
        ),
        Query::Found(3, 7)
    );
    assert_eq!(
        get_cursor_position(Platform::Windows, Reply::ScreenBufferInfo(None)),
        Query::Fatal(Fatal::ScreenBufferInfo)
    );
    assert_eq!(
        get_cursor_position(Platform::Unix, Reply::Start),
        Query::Call(Request::GetCursorPosition)
    );
    assert_eq!(
        get_cursor_position(Platform::Unix, Reply::CursorPosition(Some((3, 7)))),
        Query::Found(3, 7)
    );
    assert_eq!(
        get_cursor_position(Platform::Unix, Reply::CursorPosition(None)),
        Query::Found(0, 0)
    );
}

#[test]
fn a_coordinate_is_read_as_sixteen_bits_without_a_sign() {
    let window = SmallRect { left: 0, top: 0, right: 119, bottom: 29 };
    assert_eq!(position_in(&info(window, Coord { x: 3, y: 7 })), (3, 7));
    assert_eq!(position_in(&info(window, Coord { x: -1, y: i16::MIN })), (65535, 32768));
}

#[test]
fn detecting_again_with_the_same_command_asks_nothing_once_it_is_applied() {
    let mut command = EnableAnsiCommand::new();
    try_enable_ansi_support(&mut command, Reply::Start);
    try_enable_ansi_support(&mut command, Reply::ConsoleMode(Some(3)));
    assert_eq!(try_enable_ansi_support(&mut command, Reply::Done(true)), Action::Finished(true));
    let once = command.record;
    assert_eq!(try_enable_ansi_support(&mut command, Reply::Start), Action::Finished(true));
    assert_eq!(command.record, once);
    assert!(windows_supportable(&command.record));
}
