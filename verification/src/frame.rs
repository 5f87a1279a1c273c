//! What a frame is made of, character for character, and what can be said of
//! every frame.

use crate::banner::{banner_text, greeting, version_text};
use crate::control::{
    clear_text, decimal_text, digit_char, hide_text, move_to_text, show_text, ClearKind,
};
use vstd::prelude::*;

verus! {

/// The character that marks a row with nothing in it.
pub const ROW_MARKER: char = '~';

/// What ends every row of a frame but the last.
pub open spec fn line_break() -> Seq<char> {
    seq!['\r', '\n']
}

/// One row of a frame: the marker, the sequence that erases whatever an
/// earlier frame left to its right, and, on the row a third of the way down,
/// the banner.
pub open spec fn row_text(row: int, columns: nat, rows: nat) -> Seq<char> {
    seq![ROW_MARKER] + clear_text(ClearKind::UntilNewLine) + if row == rows / 3 {
        banner_text(version_text(), columns)
    } else {
        Seq::<char>::empty()
    }
}

/// The rows of a frame, top to bottom.
pub open spec fn screen_rows(columns: nat, rows: nat) -> Seq<Seq<char>> {
    Seq::new(rows, |row: int| row_text(row, columns, rows))
}

/// The lines with `separator` between each two neighbours, and none after the
/// last.
pub open spec fn joined(lines: Seq<Seq<char>>, separator: Seq<char>) -> Seq<char>
    decreases lines.len(),
{
    if lines.len() == 0 {
        Seq::<char>::empty()
    } else if lines.len() == 1 {
        lines[0]
    } else {
        joined(lines.drop_last(), separator) + separator + lines.last()
    }
}

/// All rows of a frame as one text: every row but the last ends in a line
/// break.
pub open spec fn rows_text(columns: nat, rows: nat) -> Seq<char> {
    joined(screen_rows(columns, rows), line_break())
}

/// A whole frame for a window of `columns` by `rows` with the cursor at
/// column `x`, row `y`: the cursor is hidden and sent to the origin, the rows
/// are drawn, and the cursor is put in its place and shown again.
pub open spec fn frame_text(x: int, y: int, columns: nat, rows: nat) -> Seq<char> {
    hide_text() + move_to_text(0, 0) + rows_text(columns, rows) + move_to_text(x, y) + show_text()
}

/// What is sent to wipe the screen: everything is erased and the cursor goes
/// to the origin.
pub open spec fn clear_screen_text() -> Seq<char> {
    clear_text(ClearKind::All) + move_to_text(0, 0)
}

/// How often `ch` occurs in `text`.
pub open spec fn occurrences(text: Seq<char>, ch: char) -> nat
    decreases text.len(),
{
    if text.len() == 0 {
        0
    } else {
        occurrences(text.drop_last(), ch) + if text.last() == ch {
            1nat
        } else {
            0nat
        }
    }
}

/// `ch` occurs nowhere in `text`.
pub open spec fn free_of(text: Seq<char>, ch: char) -> bool {
    forall|i: int| 0 <= i < text.len() ==> text[i] != ch
}

/// A character is counted in a text made of two parts as often as in both
/// parts together.
pub proof fn lemma_occurrences_concat(first: Seq<char>, second: Seq<char>, ch: char)
    ensures
        occurrences(first + second, ch) == occurrences(first, ch) + occurrences(second, ch),
    decreases second.len(),
{
    if second.len() == 0 {
        assert(first + second =~= first);
    } else {
        assert((first + second).drop_last() =~= first + second.drop_last());
        lemma_occurrences_concat(first, second.drop_last(), ch);
    }
}

/// A character that occurs nowhere is counted zero times.
pub proof fn lemma_occurrences_absent(text: Seq<char>, ch: char)
    requires
        free_of(text, ch),
    ensures
        occurrences(text, ch) == 0,
    decreases text.len(),
{
    if text.len() > 0 {
        lemma_occurrences_absent(text.drop_last(), ch);
    }
}

/// A number in decimal is made of the ten digits and nothing else.
proof fn lemma_decimal_is_digits(number: nat)
    ensures
        forall|i: int|
            0 <= i < decimal_text(number).len() ==> '0' <= #[trigger] decimal_text(number)[i]
                <= '9',
    decreases number,
{
    assert forall|digit: int| 0 <= digit < 10 implies '0' <= #[trigger] digit_char(digit)
        <= '9' by {
        assert(((48 + digit) as u8) as char as int == 48 + digit);
    }
    let text = decimal_text(number);
    if number >= 10 {
        lemma_decimal_is_digits(number / 10);
        let front = decimal_text(number / 10);
        assert(text == front.push(digit_char((number % 10) as int)));
        assert forall|i: int| 0 <= i < text.len() implies '0' <= #[trigger] text[i] <= '9' by {
            if i < front.len() {
                assert(text[i] == front[i]);
            }
        }
    } else {
        assert(text == seq![digit_char(number as int)]);
    }
}

/// The character is one that only the rows of a frame bring in: the row
/// marker, or one of the two characters of a line break.
pub open spec fn is_layout_char(ch: char) -> bool {
    ch == ROW_MARKER || ch == '\r' || ch == '\n'
}

/// No control sequence holds a row marker or a part of a line break.
proof fn lemma_control_is_free(ch: char, x: int, y: int)
    requires
        is_layout_char(ch),
        0 <= x,
        0 <= y,
    ensures
        occurrences(hide_text(), ch) == 0,
        occurrences(show_text(), ch) == 0,
        occurrences(clear_text(ClearKind::All), ch) == 0,
        occurrences(clear_text(ClearKind::UntilNewLine), ch) == 0,
        occurrences(move_to_text(x, y), ch) == 0,
{
    lemma_decimal_is_digits((x + 1) as nat);
    lemma_decimal_is_digits((y + 1) as nat);
    lemma_occurrences_absent(hide_text(), ch);
    lemma_occurrences_absent(show_text(), ch);
    lemma_occurrences_absent(clear_text(ClearKind::All), ch);
    lemma_occurrences_absent(clear_text(ClearKind::UntilNewLine), ch);
    lemma_occurrences_absent(move_to_text(x, y), ch);
}

/// The banner holds neither a row marker nor a part of a line break.
proof fn lemma_banner_is_free(ch: char, columns: nat)
    requires
        is_layout_char(ch),
    ensures
        occurrences(banner_text(version_text(), columns), ch) == 0,
{
    assert(free_of(greeting(version_text()), ch));
    lemma_occurrences_absent(banner_text(version_text(), columns), ch);
}

/// A row holds the row marker once, at its start, and no part of a line
/// break.
proof fn lemma_row_counts(ch: char, row: int, columns: nat, rows: nat)
    requires
        is_layout_char(ch),
    ensures
        occurrences(row_text(row, columns, rows), ch) == if ch == ROW_MARKER {
            1nat
        } else {
            0nat
        },
        row_text(row, columns, rows)[0] == ROW_MARKER,
{
    let marker = seq![ROW_MARKER];
    let erase = clear_text(ClearKind::UntilNewLine);
    let rest = if row == rows / 3 {
        banner_text(version_text(), columns)
    } else {
        Seq::<char>::empty()
    };
    lemma_control_is_free(ch, 0, 0);
    lemma_banner_is_free(ch, columns);
    assert(occurrences(marker, ch) == if ch == ROW_MARKER {
        1nat
    } else {
        0nat
    }) by {
        assert(marker.drop_last() =~= Seq::<char>::empty());
        assert(occurrences(marker.drop_last(), ch) == 0);
    }
    lemma_occurrences_concat(marker, erase, ch);
    lemma_occurrences_concat(marker + erase, rest, ch);
}

/// In lines that each hold `ch` equally often, joined by a separator, `ch` is
/// counted once per line as often as a line holds it and once per separator
/// as often as the separator holds it.
proof fn lemma_joined_counts(lines: Seq<Seq<char>>, separator: Seq<char>, ch: char, each: nat)
    requires
        forall|i: int| 0 <= i < lines.len() ==> occurrences(#[trigger] lines[i], ch) == each,
    ensures
        occurrences(joined(lines, separator), ch) == if lines.len() == 0 {
            0
        } else {
            lines.len() * each + (lines.len() - 1) * occurrences(separator, ch)
        },
    decreases lines.len(),
{
    let between = occurrences(separator, ch);
    let count = lines.len() as int;
    if count == 1 {
        assert(1 * each + 0 * between == each) by (nonlinear_arith);
    } else if count >= 2 {
        let front = lines.drop_last();
        lemma_joined_counts(front, separator, ch, each);
        lemma_occurrences_concat(joined(front, separator), separator, ch);
        lemma_occurrences_concat(joined(front, separator) + separator, lines.last(), ch);
        assert((count - 1) * each + (count - 2) * between + between + each == count * each + (count
            - 1) * between) by (nonlinear_arith);
    }
}

/// A window of `rows` rows is drawn as exactly `rows` rows. Each begins with
/// the row marker and holds no other, and none holds a part of a line break:
/// the line breaks of a frame are those that stand between its rows.
pub proof fn lemma_rows_shape(columns: nat, rows: nat)
    ensures
        screen_rows(columns, rows).len() == rows,
        forall|row: int|
            #![trigger screen_rows(columns, rows)[row]]
            0 <= row < rows ==> {
                &&& screen_rows(columns, rows)[row][0] == ROW_MARKER
                &&& occurrences(screen_rows(columns, rows)[row], ROW_MARKER) == 1
                &&& occurrences(screen_rows(columns, rows)[row], '\r') == 0
                &&& occurrences(screen_rows(columns, rows)[row], '\n') == 0
            },
{
    assert forall|row: int| 0 <= row < rows implies {
        &&& (#[trigger] screen_rows(columns, rows)[row])[0] == ROW_MARKER
        &&& occurrences(screen_rows(columns, rows)[row], ROW_MARKER) == 1
        &&& occurrences(screen_rows(columns, rows)[row], '\r') == 0
        &&& occurrences(screen_rows(columns, rows)[row], '\n') == 0
    } by {
        lemma_row_counts(ROW_MARKER, row, columns, rows);
        lemma_row_counts('\r', row, columns, rows);
        lemma_row_counts('\n', row, columns, rows);
    }
}

/// The rows of a window of `rows` rows hold exactly `rows` row markers and
/// one line break fewer, if there is a row at all: every row but the last is
/// followed by one.
pub proof fn lemma_rows_counts(columns: nat, rows: nat)
    ensures
        occurrences(rows_text(columns, rows), ROW_MARKER) == rows,
        occurrences(rows_text(columns, rows), '\r') == if rows == 0 {
            0
        } else {
            rows - 1
        },
        occurrences(rows_text(columns, rows), '\n') == if rows == 0 {
            0
        } else {
            rows - 1
        },
{
    lemma_rows_shape(columns, rows);
    let lines = screen_rows(columns, rows);
    let gap = line_break();
    assert(occurrences(gap, ROW_MARKER) == 0) by {
        lemma_occurrences_absent(gap, ROW_MARKER);
    }
    assert(occurrences(gap, '\r') == 1 && occurrences(gap, '\n') == 1) by {
        assert(gap.drop_last() =~= seq!['\r']);
        assert(gap.drop_last().drop_last() =~= Seq::<char>::empty());
        assert(occurrences(gap.drop_last().drop_last(), '\r') == 0);
        assert(occurrences(gap.drop_last().drop_last(), '\n') == 0);
        assert(occurrences(gap.drop_last(), '\r') == 1);
        assert(occurrences(gap.drop_last(), '\n') == 0);
    }
    lemma_joined_counts(lines, gap, ROW_MARKER, 1);
    lemma_joined_counts(lines, gap, '\r', 0);
    lemma_joined_counts(lines, gap, '\n', 0);
    assert(rows * 1 + (rows - 1) * 0 == rows) by (nonlinear_arith);
    assert(rows * 0 + (rows - 1) * 1 == rows - 1) by (nonlinear_arith);
}

/// A whole frame for a window of `rows` rows holds exactly `rows` row markers
/// and, if there is a row at all, one line break fewer, wherever the cursor
/// stands: what is sent before and after the rows adds neither.
pub proof fn lemma_frame_counts(x: int, y: int, columns: nat, rows: nat)
    requires
        0 <= x,
        0 <= y,
    ensures
        occurrences(frame_text(x, y, columns, rows), ROW_MARKER) == rows,
        occurrences(frame_text(x, y, columns, rows), '\r') == if rows == 0 {
            0
        } else {
            rows - 1
        },
        occurrences(frame_text(x, y, columns, rows), '\n') == if rows == 0 {
            0
        } else {
            rows - 1
        },
{
    lemma_rows_counts(columns, rows);
    lemma_frame_parts(ROW_MARKER, x, y, columns, rows);
    lemma_frame_parts('\r', x, y, columns, rows);
    lemma_frame_parts('\n', x, y, columns, rows);
}

/// A frame holds a row marker or a part of a line break as often as its rows
/// do.
proof fn lemma_frame_parts(ch: char, x: int, y: int, columns: nat, rows: nat)
    requires
        is_layout_char(ch),
        0 <= x,
        0 <= y,
    ensures
        occurrences(frame_text(x, y, columns, rows), ch) == occurrences(
            rows_text(columns, rows),
            ch,
        ),
{
    let body = rows_text(columns, rows);
    lemma_control_is_free(ch, 0, 0);
    lemma_control_is_free(ch, x, y);
    lemma_occurrences_concat(hide_text(), move_to_text(0, 0), ch);
    lemma_occurrences_concat(hide_text() + move_to_text(0, 0), body, ch);
    lemma_occurrences_concat(hide_text() + move_to_text(0, 0) + body, move_to_text(x, y), ch);
    lemma_occurrences_concat(
        hide_text() + move_to_text(0, 0) + body + move_to_text(x, y),
        show_text(),
        ch,
    );
}

} // verus!
