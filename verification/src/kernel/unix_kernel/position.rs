//! The report by which a terminal tells where its cursor is.
//!
//! A terminal that is asked for the position of its cursor answers with
//! `ESC [ row ; column R`, both numbers in decimal and counted from one.

use crate::shared::decimal::{
    decimal,
    digit_value,
    is_digit,
    lemma_decimal_reads_back,
    push_decimal,
    run_value,
};
use crate::shared::sequence::csi;
use vstd::prelude::*;
use vstd::string::StrSliceExecFns;
use vstd::string::StringExecFns;

verus! {

/// The greatest row or column that a report can name to the library: the
/// greatest position, counted from one.
pub const GREATEST: u32 = 65536;

/// The text of the report for a row and a column, both counted from one.
pub open spec fn report_text(row: nat, column: nat) -> Seq<char> {
    csi() + decimal(row) + seq![';'] + decimal(column) + seq!['R']
}

/// The text of the report of a terminal whose cursor is at column `x`, row
/// `y`, both counted from zero.
pub open spec fn cursor_report(x: u16, y: u16) -> Seq<char> {
    report_text((y + 1) as nat, (x + 1) as nat)
}

/// Where the run of digits that begins at `from` ends: the index of the first
/// character at or after `from` that is no digit, or the length of the text.
pub open spec fn digits_end(text: Seq<char>, from: int) -> int
    decreases text.len() - from,
{
    if 0 <= from < text.len() && is_digit(text[from]) {
        digits_end(text, from + 1)
    } else {
        from
    }
}

/// The number that stands at `from`: what the run of digits there denotes.
pub open spec fn number_at(text: Seq<char>, from: int) -> nat {
    run_value(text.subrange(from, digits_end(text, from)))
}

/// What a report says: the position of the cursor, counted from zero, when
/// the text is the report for a row and a column between one and
/// [`GREATEST`], and nothing for any other text.
pub open spec fn parsed(report: Seq<char>) -> Option<(u16, u16)> {
    let row = number_at(report, 2);
    let column = number_at(report, digits_end(report, 2) + 1);
    if 1 <= row <= GREATEST && 1 <= column <= GREATEST && report == report_text(row, column) {
        Some(((column - 1) as u16, (row - 1) as u16))
    } else {
        None
    }
}

/// A run of digits that is followed by something else ends where that stands.
proof fn lemma_digits_end_is(text: Seq<char>, from: int, end: int)
    requires
        0 <= from <= end <= text.len(),
        forall|k: int| from <= k < end ==> is_digit(#[trigger] text[k]),
        end < text.len() ==> !is_digit(text[end]),
    ensures
        digits_end(text, from) == end,
    decreases end - from,
{
    if from < end {
        lemma_digits_end_is(text, from + 1, end);
    }
}

/// In a report, the row is the number at the third character and the column
/// the number after the semicolon that ends it.
proof fn lemma_numbers_of_a_report(row: nat, column: nat)
    ensures
        ({
            let text = report_text(row, column);
            &&& number_at(text, 2) == row
            &&& digits_end(text, 2) == 2 + decimal(row).len()
            &&& number_at(text, digits_end(text, 2) + 1) == column
        }),
{
    let text = report_text(row, column);
    let rows = decimal(row);
    let columns = decimal(column);
    lemma_decimal_reads_back(row);
    lemma_decimal_reads_back(column);
    let after_row: int = 2 + rows.len() as int;
    assert(text.len() == after_row + 1 + columns.len() + 1);
    assert forall|k: int| 2 <= k < after_row implies is_digit(#[trigger] text[k]) by {
        assert(text[k] == rows[k - 2]);
    }
    assert(text[after_row] == ';');
    lemma_digits_end_is(text, 2, after_row);
    assert(text.subrange(2, after_row) =~= rows);
    let after_column: int = after_row + 1 + columns.len() as int;
    assert forall|k: int| after_row + 1 <= k < after_column implies is_digit(
        #[trigger] text[k],
    ) by {
        assert(text[k] == columns[k - after_row - 1]);
    }
    assert(text[after_column] == 'R');
    lemma_digits_end_is(text, after_row + 1, after_column);
    assert(text.subrange(after_row + 1, after_column) =~= columns);
}

/// The report of a position says that position, and a text that says a
/// position is the report of it.
pub proof fn lemma_report_says_the_position(x: u16, y: u16)
    ensures
        parsed(cursor_report(x, y)) == Some((x, y)),
        forall|report: Seq<char>|
            parsed(report) == Some((x, y)) ==> report == #[trigger] cursor_report(x, y),
{
    lemma_numbers_of_a_report((y + 1) as nat, (x + 1) as nat);
    assert forall|report: Seq<char>| parsed(report) == Some((x, y)) implies report
        == cursor_report(x, y) by {
        let row = number_at(report, 2);
        let column = number_at(report, digits_end(report, 2) + 1);
        assert(row == y + 1);
        assert(column == x + 1);
    }
}

/// A run of digits denotes at least what it denotes without its last digit.
proof fn lemma_run_value_grows(digits: Seq<char>)
    requires
        digits.len() > 0,
        is_digit(digits.last()),
    ensures
        run_value(digits) >= run_value(digits.drop_last()),
        run_value(digits) == run_value(digits.drop_last()) * 10 + digit_value(
            digits.last(),
        ).unwrap(),
        0 <= digit_value(digits.last()).unwrap() <= 9,
{
}

fn digit_of(c: char) -> (d: Option<u32>)
    ensures
        match d {
            Some(value) => digit_value(c) == Some(value as int) && value <= 9,
            None => digit_value(c) is None,
        },
{
    if c == '0' {
        Some(0)
    } else if c == '1' {
        Some(1)
    } else if c == '2' {
        Some(2)
    } else if c == '3' {
        Some(3)
    } else if c == '4' {
        Some(4)
    } else if c == '5' {
        Some(5)
    } else if c == '6' {
        Some(6)
    } else if c == '7' {
        Some(7)
    } else if c == '8' {
        Some(8)
    } else if c == '9' {
        Some(9)
    } else {
        None
    }
}

/// Reads the number at `from`. The number is given as it is up to
/// [`GREATEST`]; of a greater one only that it is greater.
fn number(report: &str, length: usize, from: usize) -> (read: (u32, usize))
    requires
        length == report@.len(),
        from <= length,
    ensures
        read.1 == digits_end(report@, from as int),
        from <= read.1 <= length,
        read.0 <= GREATEST ==> read.0 == number_at(report@, from as int),
        read.0 > GREATEST ==> number_at(report@, from as int) > GREATEST,
{
    let mut value: u32 = 0;
    let mut at: usize = from;
    let mut stop = false;
    proof {
        assert(report@.subrange(from as int, from as int).len() == 0);
    }
    while at < length && !stop
        invariant
            stop ==> at < length && !is_digit(report@[at as int]),
            length == report@.len(),
            from <= at <= length,
            forall|k: int| from <= k < at ==> is_digit(#[trigger] report@[k]),
            value <= GREATEST ==> value == run_value(report@.subrange(from as int, at as int)),
            value > GREATEST ==> run_value(report@.subrange(from as int, at as int)) > GREATEST,
            value <= 10 * GREATEST + 9,
        decreases length - at + (if stop { 0int } else { 1int }),
    {
        let c = report.get_char(at);
        match digit_of(c) {
            None => {
                stop = true;
            },
            Some(d) => {
                proof {
                    let run = report@.subrange(from as int, at + 1);
                    assert(run.last() == c);
                    assert(run.drop_last() =~= report@.subrange(from as int, at as int));
                    lemma_run_value_grows(run);
                }
                if value <= GREATEST {
                    value = value * 10 + d;
                }
                at += 1;
            },
        }
    }
    proof {
        lemma_digits_end_is(report@, from as int, at as int);
    }
    (value, at)
}

/// Reads the report of a terminal: the position of the cursor, counted from
/// zero, when the text is a report, and `None` when it is anything else.
pub fn parse_cursor_report(report: &str) -> (position: Option<(u16, u16)>)
    ensures
        position == parsed(report@),
{
    let length = report.unicode_len();
    if length < 3 {
        proof {
            let row = number_at(report@, 2);
            let column = number_at(report@, digits_end(report@, 2) + 1);
            lemma_decimal_reads_back(row);
            lemma_decimal_reads_back(column);
            assert(report_text(row, column).len() >= 6);
        }
        return None;
    }
    let (row, after_row) = number(report, length, 2);
    if after_row >= length {
        proof {
            let r = number_at(report@, 2);
            let c = number_at(report@, digits_end(report@, 2) + 1);
            if report@ == report_text(r, c) {
                lemma_numbers_of_a_report(r, c);
                lemma_decimal_reads_back(c);
                assert(report_text(r, c).len() == 2 + decimal(r).len() + 1 + decimal(c).len() + 1);
            }
        }
        return None;
    }
    let (column, _after_column) = number(report, length, after_row + 1);
    if row < 1 || row > GREATEST || column < 1 || column > GREATEST {
        return None;
    }
    let mut expected = String::new();
    proof {
        reveal_strlit("\x1b[");
        reveal_strlit(";");
        reveal_strlit("R");
    }
    expected.append("\x1b[");
    push_decimal(&mut expected, row);
    expected.append(";");
    push_decimal(&mut expected, column);
    expected.append("R");
    assert(expected@ =~= report_text(row as nat, column as nat));
    let given = report.to_owned();
    if expected == given {
        Some(((column - 1) as u16, (row - 1) as u16))
    } else {
        None
    }
}

} // verus!
