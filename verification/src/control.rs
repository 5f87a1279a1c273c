//! The control sequences a frame is made of, as the terminal library spells
//! them, together with a statement of what each one is.

use vstd::prelude::*;

verus! {

/// What part of the screen a clear sequence erases.
#[derive(Clone, Copy, Debug, PartialEq, Eq, Structural)]
pub enum ClearKind {
    /// Every cell of the screen.
    All,
    /// The cells from the cursor to the end of its row.
    UntilNewLine,
}

/// The largest column or row a cursor position sequence can carry: positions
/// travel one-based in sixteen bits.
pub const MAX_POSITION: usize = 65534;

/// The two characters every control sequence starts with.
pub open spec fn introducer() -> Seq<char> {
    seq!['\u{1b}', '[']
}

/// The sequence that hides the cursor.
pub open spec fn hide_text() -> Seq<char> {
    introducer() + seq!['?', '2', '5', 'l']
}

/// The sequence that shows the cursor.
pub open spec fn show_text() -> Seq<char> {
    introducer() + seq!['?', '2', '5', 'h']
}

/// The sequence that erases the part of the screen named by `kind`.
pub open spec fn clear_text(kind: ClearKind) -> Seq<char> {
    match kind {
        ClearKind::All => introducer() + seq!['2', 'J'],
        ClearKind::UntilNewLine => introducer() + seq!['K'],
    }
}

/// The character for a single decimal digit.
pub open spec fn digit_char(digit: int) -> char
    recommends
        0 <= digit < 10,
{
    ((48 + digit) as u8) as char
}

/// A number written in decimal, without sign or leading zeros.
pub open spec fn decimal_text(number: nat) -> Seq<char>
    decreases number,
{
    if number < 10 {
        seq![digit_char(number as int)]
    } else {
        decimal_text(number / 10).push(digit_char((number % 10) as int))
    }
}

/// The sequence that puts the cursor in column `x` of row `y`, both counted
/// from zero. On the wire the row comes first and both are counted from one.
pub open spec fn move_to_text(x: int, y: int) -> Seq<char> {
    introducer() + decimal_text((y + 1) as nat) + seq![';'] + decimal_text((x + 1) as nat)
        + seq!['H']
}

/// Calls `crossterm::cursor::Hide`'s `write_ansi` on an empty string. The
/// contract claims that it writes the introducer followed by `?25l`.
#[verifier::external_body]
pub(crate) fn hide_token() -> (token: String)
    ensures
        token@ == hide_text(),
{
    let mut token = String::new();
    let _ = crossterm::Command::write_ansi(&crossterm::cursor::Hide, &mut token);
    token
}

/// Calls `crossterm::cursor::Show`'s `write_ansi` on an empty string. The
/// contract claims that it writes the introducer followed by `?25h`.
#[verifier::external_body]
pub(crate) fn show_token() -> (token: String)
    ensures
        token@ == show_text(),
{
    let mut token = String::new();
    let _ = crossterm::Command::write_ansi(&crossterm::cursor::Show, &mut token);
    token
}

/// Calls `crossterm::terminal::Clear`'s `write_ansi` on an empty string. The
/// contract claims that it writes the introducer followed by `2J` for the
/// whole screen and by `K` for the rest of the row.
#[verifier::external_body]
pub(crate) fn clear_token(kind: ClearKind) -> (token: String)
    ensures
        token@ == clear_text(kind),
{
    let clear_type = match kind {
        ClearKind::All => crossterm::terminal::ClearType::All,
        ClearKind::UntilNewLine => crossterm::terminal::ClearType::UntilNewLine,
    };
    let mut token = String::new();
    let _ = crossterm::Command::write_ansi(&crossterm::terminal::Clear(clear_type), &mut token);
    token
}

/// Calls `crossterm::cursor::MoveTo`'s `write_ansi` on an empty string. The
/// contract claims that it writes the introducer, the row plus one in decimal,
/// a semicolon, the column plus one in decimal, and `H`. The outside function
/// adds the one in sixteen bits, so the largest sixteen-bit value is kept out.
#[verifier::external_body]
pub(crate) fn move_to_token(x: u16, y: u16) -> (token: String)
    requires
        x <= MAX_POSITION,
        y <= MAX_POSITION,
    ensures
        token@ == move_to_text(x as int, y as int),
{
    let mut token = String::new();
    let _ = crossterm::Command::write_ansi(&crossterm::cursor::MoveTo(x, y), &mut token);
    token
}

} // verus!
