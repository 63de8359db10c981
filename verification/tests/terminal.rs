use crossterm::kernel::{Action, Query, Reply, Request};
use crossterm::shared::functions::{Backend, Platform};
use crossterm::shared::sequence::Sequence;
use crossterm::terminal::ansi_terminal::AnsiTerminal;
use crossterm::terminal::terminal::{terminal as make_terminal, Terminal};
use crossterm::terminal::{ClearType, ITerminal};

fn write(sequence: Sequence) -> Action {
    Action::Call(Request::Write(sequence))
}

#[test]
fn clear_writes_the_sequence_of_the_region() {
    let terminal = AnsiTerminal::new(Platform::Unix);
    for clear_type in [
        ClearType::All,
        ClearType::FromCursorDown,
        ClearType::FromCursorUp,
        ClearType::CurrentLine,
        ClearType::UntilNewLine,
    ] {
        assert_eq!(terminal.clear(Reply::Start, clear_type), write(Sequence::Clear(clear_type)));
        assert_eq!(terminal.clear(Reply::Done(true), clear_type), Action::Finished(true));
        assert_eq!(terminal.clear(Reply::Done(false), clear_type), Action::Finished(false));
    }
}

#[test]
fn scrolling_writes_one_sequence() {
    let terminal = AnsiTerminal::new(Platform::Unix);
    assert_eq!(terminal.scroll_up(Reply::Start, 10), write(Sequence::ScrollUp(10)));
    assert_eq!(terminal.scroll_down(Reply::Start, 10), write(Sequence::ScrollDown(10)));
    assert_eq!(terminal.scroll_up(Reply::Start, -1), write(Sequence::ScrollUp(-1)));
}

#[test]
fn set_size_writes_width_before_height() {
    let terminal = AnsiTerminal::new(Platform::Windows);
    assert_eq!(
        terminal.set_size(Reply::Start, 10, 20),
        write(Sequence::Resize { width: 10, height: 20 })
    );
}

#[test]
fn terminal_size_asks_in_the_way_of_the_platform() {
    assert_eq!(
        AnsiTerminal::new(Platform::Unix).terminal_size(Reply::Start),
        Query::Call(Request::GetWindowSize)
    );
    assert_eq!(
        AnsiTerminal::new(Platform::Unix).terminal_size(Reply::WindowSize(Some((80, 24)))),
        Query::Found(80, 24)
    );
    assert_eq!(
        AnsiTerminal::new(Platform::Windows).terminal_size(Reply::Start),
        Query::Call(Request::GetConsoleScreenBufferInfo)
    );
}

#[test]
fn the_terminal_has_a_backend_for_escape_sequences() {
    let terminal = Terminal::on(Backend::Ansi, Platform::Unix);
    assert_eq!(terminal.terminal, Some(AnsiTerminal::new(Platform::Unix)));
    assert_eq!(
        terminal.clear(Reply::Start, ClearType::All),
        write(Sequence::Clear(ClearType::All))
    );
    assert_eq!(terminal.scroll_up(Reply::Start, 2), write(Sequence::ScrollUp(2)));
    assert_eq!(terminal.scroll_down(Reply::Start, 3), write(Sequence::ScrollDown(3)));
    assert_eq!(
        terminal.set_size(Reply::Start, 4, 5),
        write(Sequence::Resize { width: 4, height: 5 })
    );
    assert_eq!(terminal.terminal_size(Reply::Start), Query::Call(Request::GetWindowSize));
    assert_eq!(*make_terminal(Backend::Ansi, Platform::Windows), Terminal::on(
        Backend::Ansi,
        Platform::Windows
    ));
}

#[test]
fn the_terminal_without_a_backend_does_nothing() {
    let terminal = Terminal::on(Backend::WinApi, Platform::Windows);
    assert_eq!(terminal.terminal, None);
    assert_eq!(terminal.clear(Reply::Start, ClearType::All), Action::Finished(false));
    assert_eq!(terminal.scroll_up(Reply::Start, 2), Action::Finished(false));
    assert_eq!(terminal.scroll_down(Reply::Start, 2), Action::Finished(false));
    assert_eq!(terminal.set_size(Reply::Start, 2, 2), Action::Finished(false));
    assert_eq!(terminal.terminal_size(Reply::Start), Query::Found(0, 0));
}
