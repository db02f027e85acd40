//! The ways in which a buffer can fail to decode.

use vstd::prelude::*;

verus! {

/// Why a buffer could not be turned into a value.
#[derive(Debug, Clone, Copy, PartialEq, Eq, Structural)]
pub enum ParseError {
    /// A variable-length input did not have the width of its format.
    WrongLen { expected: usize, actual: usize },
    /// The leading byte of a tagged format named no variant.
    Unknown { value: u8 },
}

/// What every decoder returns.
pub type Result<T> = core::result::Result<T, ParseError>;

/// The text that reports `value` as a byte that names no variant.
pub uninterp spec fn unknown_text(value: u8) -> Seq<char>;

/// The text that reports an input of `actual` bytes where `expected` were
/// due.
pub uninterp spec fn wrong_len_text(expected: usize, actual: usize) -> Seq<char>;

/// Calls `format!`: the sentence on an unknown byte, with the byte in
/// decimal. The text is whatever `format!` makes of the byte; it is the same
/// for the same byte.
#[verifier::external_body]
fn format_unknown(value: u8) -> (s: String)
    ensures
        s@ == unknown_text(value),
{
    format!("Unknown byte value. Cannot parse byte: {}.", value)
}

/// Calls `format!`: the sentence on a wrong length, with both lengths in
/// decimal. The text is whatever `format!` makes of the two; it is the same
/// for the same two.
#[verifier::external_body]
fn format_wrong_len(expected: usize, actual: usize) -> (s: String)
    ensures
        s@ == wrong_len_text(expected, actual),
{
    format!("Input buffer has wrong length. Expected: {} - Actual: {}", expected, actual)
}

impl ParseError {
    /// The text of the failure.
    pub open spec fn text(self) -> Seq<char> {
        match self {
            ParseError::Unknown { value } => unknown_text(value),
            ParseError::WrongLen { expected, actual } => wrong_len_text(expected, actual),
        }
    }

    /// Describes the failure in a sentence.
    pub fn message(&self) -> (s: String)
        ensures
            s@ == self.text(),
    {
        match self {
            ParseError::Unknown { value } => format_unknown(*value),
            ParseError::WrongLen { expected, actual } => format_wrong_len(*expected, *actual),
        }
    }

    /// The failure that reports `byte` as a tag outside the format's set.
    pub fn unknown_byte(byte: u8) -> (e: Self)
        ensures
            e == (ParseError::Unknown { value: byte }),
    {
        ParseError::Unknown { value: byte }
    }
}

} // verus!
