//! What can go wrong in a session, and how it is put into words.

use vstd::prelude::*;
use crate::key::DIGIT_0;
use crate::screen::decimal;

verus! {

/// `std::io::Error`. The library carries such an error along and never looks
/// inside it.
#[verifier::external_type_specification]
#[verifier::external_body]
pub struct ExIoError(std::io::Error);

/// `std::string::FromUtf8Error`, the error of `String::from_utf8`. It holds
/// the bytes that were no text.
#[verifier::external_type_specification]
#[verifier::external_body]
pub struct ExFromUtf8Error(std::string::FromUtf8Error);

/// The bytes that a `FromUtf8Error` holds: those that were to become a
/// `String` and are not UTF-8. Nothing is proved of this: it only names what
/// `FromUtf8Error::into_bytes` returns.
pub uninterp spec fn rejected_bytes(error: std::string::FromUtf8Error) -> Seq<u8>;

/// `FromUtf8Error::into_bytes`, taken on trust: it returns the bytes that the
/// error holds, the same for the same error.
pub assume_specification[ std::string::FromUtf8Error::into_bytes ](
    error: std::string::FromUtf8Error,
) -> (bytes: Vec<u8>)
    ensures
        bytes@ == rejected_bytes(error),
;

/// `String::push`, taken on trust: it appends the character to the end of
/// the string and leaves what was there as it is.
pub assume_specification[ String::push ](text: &mut String, ch: char)
    ensures
        final(text)@ == old(text)@.push(ch),
;

/// What ends a session before the quit key does.
#[derive(Debug)]
pub enum Error {
    /// Reading from the terminal, writing to it or setting it up failed.
    IoError(std::io::Error),
    /// An escape sequence that the decoder could not read.
    EscSeqParseError(String),
    /// Bytes that should have been text and are not UTF-8.
    Utf8ParseError(Vec<u8>),
    /// A key that is not valid where it came.
    BadKeyError(u8),
}

/// `n` in decimal digits, as text.
pub open spec fn decimal_text(n: nat) -> Seq<char> {
    decimal(n).map_values(|b: u8| b as char)
}

/// The numbers in `bytes` in decimal, with a comma and a blank between two
/// of them.
pub open spec fn list_items(bytes: Seq<u8>) -> Seq<char>
    decreases bytes.len(),
{
    if bytes.len() == 0 {
        Seq::empty()
    } else if bytes.len() == 1 {
        decimal_text(bytes[0] as nat)
    } else {
        list_items(bytes.drop_last()) + seq![',', ' '] + decimal_text(bytes.last() as nat)
    }
}

/// `bytes` as a list of numbers in square brackets.
pub open spec fn list_text(bytes: Seq<u8>) -> Seq<char> {
    seq!['['] + list_items(bytes) + seq![']']
}

/// Appends `n` in decimal digits.
fn push_decimal(text: &mut String, n: usize)
    ensures
        final(text)@ == old(text)@ + decimal_text(n as nat),
    decreases n,
{
    if n >= 10 {
        push_decimal(text, n / 10);
    }
    let digit: u8 = DIGIT_0 + (n % 10) as u8;
    text.push(digit as char);
    assert(text@ =~= old(text)@ + decimal_text(n as nat));
}

impl Error {
    /// The error in words, for the user to read: what kind of error it is,
    /// and then what it holds. An input or output error prints its cause as
    /// the cause prints itself, bytes are listed in decimal between square
    /// brackets, a key is given as its number.
    pub fn message(&self) -> (text: String)
        ensures
            match *self {
                Error::IoError(err) => exists|cause: String|
                    vstd::string::to_string_from_display_ensures::<std::io::Error>(&err, cause)
                        && text@ == "Input/output error: "@ + cause@,
                Error::EscSeqParseError(seq) => text@ == "Error parsing escape sequence: "@
                    + seq@,
                Error::Utf8ParseError(bytes) => text@ == "Byte sequence is not UTF-8: "@
                    + list_text(bytes@),
                Error::BadKeyError(key) => text@ == "Unexpected or invalid key: "@ + decimal_text(
                    key as nat,
                ),
            },
    {
        match self {
            Error::IoError(err) => {
                let mut text = String::from_str("Input/output error: ");
                let cause = err.to_string();
                text.append(cause.as_str());
                text
            },
            Error::EscSeqParseError(seq) => {
                let mut text = String::from_str("Error parsing escape sequence: ");
                text.append(seq.as_str());
                text
            },
            Error::Utf8ParseError(bytes) => {
                let mut text = String::from_str("Byte sequence is not UTF-8: ");
                text.push('[');
                let mut i: usize = 0;
                while i < bytes.len()
                    invariant
                        i <= bytes.len(),
                        text@ == "Byte sequence is not UTF-8: "@ + seq!['['] + list_items(
                            bytes@.take(i as int),
                        ),
                    decreases bytes.len() - i,
                {
                    if i > 0 {
                        text.push(',');
                        text.push(' ');
                    }
                    push_decimal(&mut text, bytes[i] as usize);
                    proof {
                        let next = bytes@.take(i + 1);
                        assert(next.drop_last() =~= bytes@.take(i as int));
                        assert(next.last() == bytes@[i as int]);
                    }
                    i += 1;
                }
                text.push(']');
                assert(bytes@.take(bytes@.len() as int) =~= bytes@);
                text
            },
            Error::BadKeyError(key) => {
                let mut text = String::from_str("Unexpected or invalid key: ");
                push_decimal(&mut text, *key as usize);
                text
            },
        }
    }
}

impl From<std::io::Error> for Error {
    /// The error for a failed read or write: it holds `value`.
    fn from(value: std::io::Error) -> (error: Error) {
        Error::IoError(value)
    }
}

impl vstd::std_specs::convert::FromSpecImpl<std::io::Error> for Error {
    open spec fn obeys_from_spec() -> bool {
        true
    }

    open spec fn from_spec(value: std::io::Error) -> Error {
        Error::IoError(value)
    }
}

impl From<std::string::FromUtf8Error> for Error {
    /// The error for bytes that are no text: it holds the bytes that `value`
    /// held.
    fn from(value: std::string::FromUtf8Error) -> (error: Error)
        ensures
            error matches Error::Utf8ParseError(bytes) && bytes@ == rejected_bytes(value),
    {
        Error::Utf8ParseError(value.into_bytes())
    }
}

impl vstd::std_specs::convert::FromSpecImpl<std::string::FromUtf8Error> for Error {
    /// Two vectors of the same bytes are not one value, so `from` has no
    /// value to be equal to: it states what it returns in its own contract.
    open spec fn obeys_from_spec() -> bool {
        false
    }

    open spec fn from_spec(value: std::string::FromUtf8Error) -> Error {
        arbitrary()
    }
}

} // verus!
