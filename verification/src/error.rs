//! The error type shared by every decoder of the crate, and the texts that
//! its messages are made of.

use vstd::prelude::*;
use vstd::string::*;

verus! {

/// The error of the byte cursor: a read or write that does not fit its buffer.
#[verifier::external_type_specification]
#[verifier::external_body]
pub struct ExCursorFault(scroll::Error);

/// Why a structure could not be decoded or written.
#[derive(Debug)]
pub enum ImageError {
    /// The bytes were read, but what they say is not a valid structure.
    Malformed(String),
    /// The byte cursor ran past the end of its buffer.
    Scroll(scroll::Error),
}

/// The character of one digit below sixteen, in lower case.
pub open spec fn digit_char(d: int) -> char {
    if d < 10 {
        ((0x30 + d) as u8) as char
    } else {
        ((0x61 + d - 10) as u8) as char
    }
}

/// The digits of `v` in base sixteen, without a prefix.
pub open spec fn hex_digits(v: nat) -> Seq<char>
    decreases v,
{
    if v < 16 {
        seq![digit_char(v as int)]
    } else {
        hex_digits(v / 16).push(digit_char((v % 16) as int))
    }
}

/// The digits of `v` in base ten.
pub open spec fn decimal_digits(v: nat) -> Seq<char>
    decreases v,
{
    if v < 10 {
        seq![digit_char(v as int)]
    } else {
        decimal_digits(v / 10).push(digit_char((v % 10) as int))
    }
}

/// `v` as messages show it: `0x` and its digits in base sixteen.
pub open spec fn hex_text(v: nat) -> Seq<char> {
    seq!['0', 'x'] + hex_digits(v)
}

/// Formats `v` with `format!` in the alternate lower-hexadecimal form: the
/// prefix `0x`, then the digits without leading zeros.
#[verifier::external_body]
pub(crate) fn hex(v: u64) -> (s: String)
    ensures
        s@ == hex_text(v as nat),
{
    format!("{:#x}", v)
}

/// Formats `v` with `ToString::to_string`: its decimal digits without
/// leading zeros.
#[verifier::external_body]
pub(crate) fn decimal(v: u32) -> (s: String)
    ensures
        s@ == decimal_digits(v as nat),
{
    v.to_string()
}

/// Formats a table with `format!` in its debug form. What the text holds is
/// up to the `Debug` impl of the entries, so nothing is stated of it.
#[verifier::external_body]
pub(crate) fn listing<T: core::fmt::Debug>(table: &[T]) -> (s: String) {
    format!("{:?}", table)
}

/// Hands a result of the cursor on, with its error as an error of the
/// library.
pub fn cursor_result<T>(r: core::result::Result<T, scroll::Error>) -> (out: core::result::Result<
    T,
    ImageError,
>)
    ensures
        out is Ok <==> r is Ok,
        out is Ok ==> out->Ok_0 == r->Ok_0,
        out is Err ==> out->Err_0 is Scroll,
{
    match r {
        Ok(v) => Ok(v),
        Err(e) => Err(ImageError::Scroll(e)),
    }
}

impl ImageError {
    /// The text of a `Malformed` error, and the empty text for an error of
    /// the cursor.
    pub open spec fn message(self) -> Seq<char> {
        match self {
            ImageError::Malformed(m) => m@,
            ImageError::Scroll(_) => Seq::empty(),
        }
    }

    /// A `Malformed` error whose message is `text`.
    pub fn malformed(text: &str) -> (e: ImageError)
        ensures
            e is Malformed,
            e.message() == text@,
    {
        ImageError::Malformed(String::from_str(text))
    }

    /// A `Malformed` error whose message is `before`, then `value`, then
    /// `after`.
    pub fn malformed_about(before: &str, value: String, after: &str) -> (e: ImageError)
        ensures
            e is Malformed,
            e.message() == before@ + value@ + after@,
    {
        ImageError::Malformed(String::from_str(before).concat(value.as_str()).concat(after))
    }

    /// The same error with `text` behind its message. An error of the cursor
    /// stays as it is.
    pub fn followed_by(self, text: &str) -> (e: ImageError)
        ensures
            self is Malformed ==> e is Malformed && e.message() == self.message() + text@,
            self is Scroll ==> e == self,
    {
        match self {
            ImageError::Malformed(m) => ImageError::Malformed(m.concat(text)),
            ImageError::Scroll(err) => ImageError::Scroll(err),
        }
    }
}

} // verus!
