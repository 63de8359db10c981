use crossterm::cursor::ansi_cursor::AnsiCursor;
use crossterm::cursor::ITerminalCursor;
use crossterm::kernel::unix_kernel::position::{parse_cursor_report, GREATEST};
use crossterm::kernel::{Action, Query, Reply, Request};
use crossterm::shared::functions::Platform;
use crossterm::shared::sequence::Sequence;

#[test]
fn the_sequence_that_asks_for_the_report() {
    assert_eq!(Sequence::ReportCursorPosition.render(), "\x1b[6n");
}

#[test]
fn a_report_counts_from_one_and_names_the_row_first() {
    assert_eq!(parse_cursor_report("\x1b[11;6R"), Some((5, 10)));
    assert_eq!(parse_cursor_report("\x1b[1;1R"), Some((0, 0)));
    assert_eq!(parse_cursor_report("\x1b[24;80R"), Some((79, 23)));
}

#[test]
fn the_greatest_position_is_read() {
    assert_eq!(GREATEST, 65536);
    assert_eq!(parse_cursor_report("\x1b[65536;65536R"), Some((65535, 65535)));
    assert_eq!(parse_cursor_report("\x1b[65537;1R"), None);
    assert_eq!(parse_cursor_report("\x1b[1;65537R"), None);
    assert_eq!(parse_cursor_report("\x1b[99999999999999999999;1R"), None);
    assert_eq!(parse_cursor_report("\x1b[1;4294967297R"), None);
}

#[test]
fn row_and_column_zero_are_no_position() {
    assert_eq!(parse_cursor_report("\x1b[0;5R"), None);
    assert_eq!(parse_cursor_report("\x1b[5;0R"), None);
}

#[test]
fn anything_but_a_report_is_refused() {
    for text in [
        "",
        "\x1b",
        "\x1b[",
        "\x1b[R",
        "\x1b[;R",
        "\x1b[1;R",
        "\x1b[;1R",
        "\x1b[1;1",
        "\x1b[1;1H",
        "\x1b[1,1R",
        "\x1b[1;1R ",
        " \x1b[1;1R",
        "[[1;1R",
        "\x1b]1;1R",
        "\x1b[01;1R",
        "\x1b[1;01R",
        "\x1b[+1;1R",
        "\x1b[-1;1R",
        "\x1b[1;1;1R",
        "\x1b[1 ;1R",
        "\x1b[11R",
        "\x1b[١;1R",
        "\x1b[1;1R\x1b[1;1R",
    ] {
        assert_eq!(parse_cursor_report(text), None, "{:?}", text);
    }
}

#[test]
fn the_report_of_where_goto_went_gives_the_position_back() {
    let cursor = AnsiCursor::new(Platform::Unix);
    for (x, y) in [(0u16, 0u16), (5, 10), (79, 23), (65535, 0), (0, 65535), (65535, 65535)] {
        let placed = match cursor.goto(Reply::Start, x, y) {
            Action::Call(Request::Write(Sequence::CursorPosition { row, column })) => (row, column),
            other => panic!("{:?}", other),
        };
        let report = format!("\x1b[{};{}R", placed.0, placed.1);
        let read = parse_cursor_report(&report);
        assert_eq!(read, Some((x, y)));
        assert_eq!(cursor.pos(Reply::CursorPosition(read)), Query::Found(x, y));
    }
}

#[test]
fn every_report_is_read_back() {
    let mut row: u32 = 1;
    while row <= 65536 {
        let mut column: u32 = 1;
        while column <= 65536 {
            let report = format!("\x1b[{};{}R", row, column);
            assert_eq!(
                parse_cursor_report(&report),
                Some(((column - 1) as u16, (row - 1) as u16))
            );
            column += 4099;
        }
        row += 5107;
    }
}
