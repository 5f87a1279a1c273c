//! The frame buffer: text gathered piece by piece and handed out whole.

use vstd::prelude::*;
use vstd::utf8::{decode_utf8, valid_utf8};

verus! {

/// `String::push` appends one character.
pub assume_specification[ String::push ](text: &mut String, ch: char)
    ensures
        final(text)@ == old(text)@.push(ch),
;

/// `String::push_str` appends a string slice.
pub assume_specification[ String::push_str ](text: &mut String, string: &str)
    ensures
        final(text)@ == old(text)@ + string@,
;

/// Calls `std::str::from_utf8`. The contract claims that it accepts exactly
/// the byte sequences that are UTF-8, and that the text it returns is made of
/// the characters those bytes encode.
#[verifier::external_body]
fn text_of(buf: &[u8]) -> (text: Option<&str>)
    ensures
        text is Some <==> valid_utf8(buf@),
        text matches Some(string) ==> string@ == decode_utf8(buf@),
{
    match std::str::from_utf8(buf) {
        Ok(string) => Some(string),
        Err(_) => None,
    }
}

/// Why the buffer turned bytes away.
#[derive(Clone, Copy, Debug, PartialEq, Eq, Structural)]
pub enum WriteError {
    /// The bytes are not UTF-8 text, so none of them was taken.
    WriteZero,
}

/// Text waiting to be written to the screen in one piece.
#[derive(Debug)]
pub struct EditorContents {
    content: String,
}

impl View for EditorContents {
    type V = Seq<char>;

    closed spec fn view(&self) -> Seq<char> {
        self.content@
    }
}

impl EditorContents {
    /// An empty buffer.
    pub fn new() -> (contents: EditorContents)
        ensures
            contents@ == Seq::<char>::empty(),
    {
        Self { content: String::new() }
    }

    /// Appends one character.
    pub fn push(&mut self, ch: char)
        ensures
            final(self)@ == old(self)@.push(ch),
    {
        self.content.push(ch)
    }

    /// Appends a piece of text.
    pub fn push_str(&mut self, string: &str)
        ensures
            final(self)@ == old(self)@ + string@,
    {
        self.content.push_str(string)
    }

    /// Appends bytes that spell UTF-8 text and reports how many were taken,
    /// which is all of them. Bytes that are not UTF-8 are turned away whole and
    /// leave the buffer as it was.
    pub fn write(&mut self, buf: &[u8]) -> (taken: Result<usize, WriteError>)
        ensures
            valid_utf8(buf@) ==> taken == Ok::<usize, WriteError>(buf@.len() as usize)
                && final(self)@ == old(self)@ + decode_utf8(buf@),
            !valid_utf8(buf@) ==> taken == Err::<usize, WriteError>(WriteError::WriteZero)
                && final(self)@ == old(self)@,
    {
        match text_of(buf) {
            Some(string) => {
                proof {
                    vstd::utf8::decode_utf8_encode_utf8(buf@);
                }
                self.push_str(string);
                Ok(string.len())
            },
            None => Err(WriteError::WriteZero),
        }
    }

    /// The text gathered so far.
    pub fn as_str(&self) -> (text: &str)
        ensures
            text@ == self@,
    {
        self.content.as_str()
    }

    /// Hands out everything gathered so far and leaves the buffer empty.
    pub fn flush(&mut self) -> (frame: String)
        ensures
            frame@ == old(self)@,
            final(self)@ == Seq::<char>::empty(),
    {
        let mut frame = String::new();
        std::mem::swap(&mut frame, &mut self.content);
        frame
    }
}

} // verus!
