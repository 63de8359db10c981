use crossterm::kernel::windows_kernel::kernel::{
    get_console_screen_buffer_info, get_input_handle, get_original_console_color,
    get_output_handle, is_true, is_valid_handle, place_cursor, set_console_cursor_position,
    set_console_text_attribute, HandleCache, ScreenBufferInfo, INVALID_HANDLE_VALUE,
};
use crossterm::kernel::{
    Coord, Fatal, HandleQuery, Reply, Request, ScreenBuffer, SmallRect, StdStream,
};
use crossterm::shared::sequence::Sequence;

fn info() -> ScreenBufferInfo {
    ScreenBufferInfo {
        size: Coord { x: 120, y: 9001 },
        cursor_position: Coord { x: 3, y: 7 },
        attributes: 0x0007,
        window: SmallRect { left: 0, top: 0, right: 119, bottom: 29 },
        maximum_window_size: Coord { x: 240, y: 63 },
    }
}

#[test]
fn is_true_reads_zero_as_false() {
    assert!(!is_true(0));
    assert!(is_true(1));
    assert!(is_true(-1));
    assert!(is_true(i32::MIN));
}

#[test]
fn only_the_invalid_handle_is_invalid() {
    assert!(!is_valid_handle(INVALID_HANDLE_VALUE));
    assert!(!is_valid_handle(-1));
    assert!(is_valid_handle(0));
    assert!(is_valid_handle(0x1c4));
}

#[test]
fn output_handle_is_resolved_once() {
    let mut cache = HandleCache::new();
    assert_eq!(
        get_output_handle(&mut cache, Reply::Start),
        HandleQuery::Call(Request::GetStdHandle(StdStream::Output))
    );
    assert_eq!(cache.output, None);
    assert_eq!(get_output_handle(&mut cache, Reply::Handle(0x40)), HandleQuery::Found(0x40));
    assert_eq!(cache.output, Some(0x40));
    assert_eq!(get_output_handle(&mut cache, Reply::Start), HandleQuery::Found(0x40));
    assert_eq!(get_output_handle(&mut cache, Reply::Handle(0x80)), HandleQuery::Found(0x40));
    assert_eq!(
        get_output_handle(&mut cache, Reply::Handle(INVALID_HANDLE_VALUE)),
        HandleQuery::Found(0x40)
    );
    assert_eq!(cache.output, Some(0x40));
    assert_eq!(cache.input, None);
}

#[test]
fn input_handle_is_resolved_once() {
    let mut cache = HandleCache::new();
    assert_eq!(
        get_input_handle(&mut cache, Reply::Start),
        HandleQuery::Call(Request::GetStdHandle(StdStream::Input))
    );
    assert_eq!(get_input_handle(&mut cache, Reply::Handle(0x44)), HandleQuery::Found(0x44));
    assert_eq!(get_input_handle(&mut cache, Reply::Handle(0x88)), HandleQuery::Found(0x44));
    assert_eq!(cache.input, Some(0x44));
    assert_eq!(cache.output, None);
}

#[test]
fn an_invalid_handle_is_fatal_and_is_not_cached() {
    let mut cache = HandleCache::new();
    assert_eq!(
        get_output_handle(&mut cache, Reply::Handle(INVALID_HANDLE_VALUE)),
        HandleQuery::Fatal(Fatal::OutputHandle)
    );
    assert_eq!(cache.output, None);
    assert_eq!(
        get_input_handle(&mut cache, Reply::Handle(INVALID_HANDLE_VALUE)),
        HandleQuery::Fatal(Fatal::InputHandle)
    );
    assert_eq!(cache.input, None);
    assert_eq!(get_output_handle(&mut cache, Reply::Handle(12)), HandleQuery::Found(12));
}

#[test]
fn an_invalid_handle_that_is_held_is_not_handed_out() {
    let mut cache = HandleCache { output: Some(INVALID_HANDLE_VALUE), input: Some(-1) };
    assert_eq!(
        get_output_handle(&mut cache, Reply::Start),
        HandleQuery::Call(Request::GetStdHandle(StdStream::Output))
    );
    assert_eq!(cache.output, None);
    assert_eq!(get_input_handle(&mut cache, Reply::Handle(7)), HandleQuery::Found(7));
    assert_eq!(cache.input, Some(7));
    let mut again = HandleCache { output: Some(INVALID_HANDLE_VALUE), input: None };
    assert_eq!(
        get_output_handle(&mut again, Reply::Handle(INVALID_HANDLE_VALUE)),
        HandleQuery::Fatal(Fatal::OutputHandle)
    );
    assert_eq!(again.output, None);
}

#[test]
fn a_missing_report_is_fatal() {
    assert_eq!(get_console_screen_buffer_info(Some(info())), Ok(info()));
    assert_eq!(get_console_screen_buffer_info(None), Err(Fatal::ScreenBufferInfo));
}

#[test]
fn original_color_is_the_attribute_word() {
    assert_eq!(get_original_console_color(&info()), 0x0007);
}

#[test]
fn cursor_position_in_range() {
    assert_eq!(
        set_console_cursor_position(5, 10),
        Ok(Request::SetConsoleCursorPosition(Coord { x: 5, y: 10 }))
    );
    assert_eq!(
        set_console_cursor_position(0, 0),
        Ok(Request::SetConsoleCursorPosition(Coord { x: 0, y: 0 }))
    );
    assert_eq!(
        set_console_cursor_position(32766, 32766),
        Ok(Request::SetConsoleCursorPosition(Coord { x: 32766, y: 32766 }))
    );
}

#[test]
fn cursor_position_out_of_range() {
    assert_eq!(set_console_cursor_position(-1, 0), Err(Fatal::XOutOfRange(-1)));
    assert_eq!(set_console_cursor_position(32767, 0), Err(Fatal::XOutOfRange(32767)));
    assert_eq!(set_console_cursor_position(0, -1), Err(Fatal::YOutOfRange(-1)));
    assert_eq!(set_console_cursor_position(0, 32767), Err(Fatal::YOutOfRange(32767)));
}

#[test]
fn the_column_is_judged_before_the_row() {
    assert_eq!(set_console_cursor_position(-3, -4), Err(Fatal::XOutOfRange(-3)));
    assert_eq!(place_cursor(70000, -70000), Err(Fatal::XOutOfRange(70000)));
}

#[test]
fn place_cursor_takes_wide_numbers() {
    assert_eq!(place_cursor(-65535, 4), Err(Fatal::XOutOfRange(-65535)));
    assert_eq!(place_cursor(4, 98301), Err(Fatal::YOutOfRange(98301)));
    assert_eq!(place_cursor(4, 5), Ok(Request::SetConsoleCursorPosition(Coord { x: 4, y: 5 })));
}

#[test]
fn text_attribute_request() {
    assert_eq!(set_console_text_attribute(0x00f4), Request::SetConsoleTextAttribute(0x00f4));
}

#[test]
fn which_failures_are_fatal() {
    let rect = SmallRect { left: 0, top: 0, right: 1, bottom: 1 };
    let coord = Coord { x: 0, y: 0 };
    assert_eq!(Request::GetStdHandle(StdStream::Output).failure(), Some(Fatal::OutputHandle));
    assert_eq!(Request::GetStdHandle(StdStream::Input).failure(), Some(Fatal::InputHandle));
    assert_eq!(Request::GetConsoleScreenBufferInfo.failure(), Some(Fatal::ScreenBufferInfo));
    assert_eq!(Request::SetConsoleCursorPosition(coord).failure(), Some(Fatal::CursorPosition));
    assert_eq!(Request::CreateConsoleScreenBuffer.failure(), Some(Fatal::CreateScreenBuffer));
    assert_eq!(
        Request::ReadConsoleOutput { buffer_size: coord, buffer_coord: coord, region: rect }
            .failure(),
        Some(Fatal::ReadConsoleOutput)
    );
    assert_eq!(
        Request::WriteConsoleOutput {
            target: 5,
            buffer_size: coord,
            buffer_coord: coord,
            region: rect
        }
        .failure(),
        Some(Fatal::WriteConsoleOutput)
    );
    assert_eq!(
        Request::SetActiveScreenBuffer(ScreenBuffer::Standard).failure(),
        Some(Fatal::ActiveScreenBuffer)
    );
    assert_eq!(Request::GetConsoleMode(StdStream::Input).failure(), None);
    assert_eq!(Request::SetConsoleMode(StdStream::Output, 7).failure(), None);
    assert_eq!(Request::SetConsoleTextAttribute(7).failure(), None);
    assert_eq!(Request::Write(Sequence::SaveCursor).failure(), None);
    assert_eq!(Request::GetLocalFlags.failure(), None);
    assert_eq!(Request::SetLocalFlags(0).failure(), None);
    assert_eq!(Request::GetTerminalMode.failure(), None);
    assert_eq!(Request::GetCursorPosition.failure(), None);
    assert_eq!(Request::GetWindowSize.failure(), None);
}
