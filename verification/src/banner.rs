//! The banner: one line of greeting, centred in the window.

use vstd::prelude::*;

verus! {

/// The version the banner announces.
pub const VERSION: &'static str = "0.0.1";

/// The characters of [`VERSION`].
pub open spec fn version_text() -> Seq<char> {
    seq!['0', '.', '0', '.', '1']
}

/// The word the banner puts before the version, with the blank that follows it.
pub open spec fn greeting_prefix() -> Seq<char> {
    seq!['V', 'e', 'r', 's', 'i', 'o', 'n', ' ']
}

/// The banner before it is placed: the greeting word, then the version.
pub open spec fn greeting(version: Seq<char>) -> Seq<char> {
    greeting_prefix() + version
}

/// `count` blanks.
pub open spec fn blanks(count: nat) -> Seq<char> {
    Seq::new(count, |i: int| ' ')
}

/// `text` with blanks on both sides so that it fills `width` columns. The
/// blanks are shared evenly; an odd one goes to the right. Text that already
/// fills the width stays as it is.
pub open spec fn centered(text: Seq<char>, width: nat) -> Seq<char> {
    if text.len() >= width {
        text
    } else {
        let fill = (width - text.len()) as nat;
        blanks(fill / 2) + text + blanks((fill - fill / 2) as nat)
    }
}

/// The banner for a window of `columns` columns: the greeting centred in one
/// column less than the window has, and cut off after `columns` characters if
/// it is still longer than that.
pub open spec fn banner_text(version: Seq<char>, columns: nat) -> Seq<char> {
    let line = centered(greeting(version), if columns > 0 { (columns - 1) as nat } else { 0 });
    if line.len() > columns {
        line.take(columns as int)
    } else {
        line
    }
}

/// Appends `count` blanks to `line`.
fn push_blanks(line: &mut String, count: usize)
    ensures
        final(line)@ == old(line)@ + blanks(count as nat),
{
    let mut done: usize = 0;
    while done < count
        invariant
            done <= count,
            line@ == old(line)@ + blanks(done as nat),
        decreases count - done,
    {
        line.push(' ');
        done += 1;
        assert(line@ == old(line)@ + blanks(done as nat));
    }
}

/// Composes the banner for `version` in a window of `columns` columns.
pub fn banner(version: &str, columns: usize) -> (line: String)
    ensures
        line@ == banner_text(version@, columns as nat),
        line@.len() <= columns,
{
    proof {
        reveal_strlit("Version ");
    }
    let mut text = String::new();
    text.push_str("Version ");
    text.push_str(version);
    assert(text@ == greeting(version@));
    let length = text.as_str().unicode_len();
    let width = columns.saturating_sub(1);
    if length < width {
        let fill = width - length;
        let left = fill / 2;
        let mut line = String::new();
        push_blanks(&mut line, left);
        line.push_str(text.as_str());
        push_blanks(&mut line, fill - left);
        line
    } else if length > columns {
        text.as_str().substring_char(0, columns).to_owned()
    } else {
        text
    }
}

/// Whatever the version and however narrow the window, the banner is never
/// longer than the window is wide.
pub proof fn lemma_banner_fits(version: Seq<char>, columns: nat)
    ensures
        banner_text(version, columns).len() <= columns,
{
}

} // verus!
