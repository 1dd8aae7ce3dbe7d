//! The errors that parsing an entry can end in.

use vstd::prelude::*;
use vstd::string::StringExecFns;

verus! {

/// The three ways in which an entry can be wrong.
#[derive(Clone, Copy, Debug, PartialEq, Eq, Structural)]
pub enum ErrorKind {
    /// An expected token (identifier, `=`, literal, bracket) is missing or of
    /// the wrong kind.
    SyntaxError,
    /// A field key outside the fixed vocabulary.
    UnknownField,
    /// A type expression that is neither `Name` nor `[Name]`.
    MalformedType,
}

/// Why an entry was rejected. Parsing reads from left to right and stops at
/// the first error, so there is never more than one.
#[derive(Clone, Debug, PartialEq, Eq)]
pub struct ParseError {
    pub kind: ErrorKind,
    /// A message for the entry's author. It names the offending identifier
    /// where there is one.
    pub message: String,
    /// The index of the offending token among the tokens that were parsed,
    /// or their number where they ended too early.
    pub position: usize,
}

/// The mathematical value of a [`ParseError`].
pub struct ParseErrorView {
    pub kind: ErrorKind,
    pub message: Seq<char>,
    pub position: int,
}

impl View for ParseError {
    type V = ParseErrorView;

    open spec fn view(&self) -> ParseErrorView {
        ParseErrorView { kind: self.kind, message: self.message@, position: self.position as int }
    }
}

/// A field of a response has to start with its key.
pub const EXPECTED_KEY: &'static str = "unparseable response expected to find Ident";

/// A key has to be followed by `=`.
pub const EXPECTED_EQUALS: &'static str = "expected euqals sign token (=)";

/// `status` takes an integer literal.
pub const EXPECTED_INTEGER: &'static str = "expected integer literal";

/// `description` and `content_type` take a string literal.
pub const EXPECTED_STRING: &'static str = "expected string literal";

/// `headers` takes `[(..), (..)]`.
pub const EXPECTED_HEADERS: &'static str = "expected headers in brackets [..]";

/// A header has to start with its name.
pub const EXPECTED_HEADER_NAME: &'static str =
    "unexpected attribute for Header name, expected LitStr";

/// Something follows where a header has to end.
pub const UNEXPECTED_TOKEN: &'static str = "unexpected token";

/// An integer token without digits.
pub const NUMBER_EMPTY: &'static str = "cannot parse integer from empty string";

/// An integer token with a character that is no digit.
pub const NUMBER_INVALID_DIGIT: &'static str = "invalid digit found in string";

/// A status code above `i32::MAX`.
pub const NUMBER_TOO_LARGE: &'static str = "number too large to fit in target type";

/// Neither a name nor `[` where a type has to stand.
pub const EXPECTED_TYPE: &'static str = "expected a type name or a type name in brackets";

/// `[` without a name behind it.
pub const EXPECTED_ELEMENT_TYPE: &'static str = "expected a type name within brackets";

/// `[Name` without `]` behind it.
pub const EXPECTED_CLOSING_BRACKET: &'static str = "expected `]` after the type name";

/// What every message about an unknown key starts with.
pub const UNEXPECTED_ATTRIBUTE: &'static str = "unexpected attribute: ";

/// The keys of a response, as the message about an unknown one lists them.
pub const RESPONSE_VOCABULARY: &'static str =
    ", \n                    expected values: status, description, body, content_type, headers";

/// The one key of a header, as the message about an unknown one lists it.
pub const HEADER_VOCABULARY: &'static str = ", expected: description";

/// A syntax error at `position`.
pub open spec fn syntax_error(message: Seq<char>, position: int) -> ParseErrorView {
    ParseErrorView { kind: ErrorKind::SyntaxError, message, position }
}

/// A malformed type at `position`.
pub open spec fn malformed_type(message: Seq<char>, position: int) -> ParseErrorView {
    ParseErrorView { kind: ErrorKind::MalformedType, message, position }
}

/// The unknown key `name` at `position`. The message names the key and then
/// lists the keys that `vocabulary` stands for.
pub open spec fn unknown_field(
    name: Seq<char>,
    vocabulary: Seq<char>,
    position: int,
) -> ParseErrorView {
    ParseErrorView {
        kind: ErrorKind::UnknownField,
        message: UNEXPECTED_ATTRIBUTE@ + name + vocabulary,
        position,
    }
}

impl ParseError {
    /// A syntax error at `position`.
    pub fn syntax(message: &str, position: usize) -> (e: ParseError)
        ensures
            e@ == syntax_error(message@, position as int),
    {
        ParseError { kind: ErrorKind::SyntaxError, message: String::from_str(message), position }
    }

    /// A malformed type at `position`.
    pub fn malformed(message: &str, position: usize) -> (e: ParseError)
        ensures
            e@ == malformed_type(message@, position as int),
    {
        ParseError { kind: ErrorKind::MalformedType, message: String::from_str(message), position }
    }

    /// The unknown key `name` at `position`, with the keys that would have
    /// been accepted.
    pub fn unknown(name: &str, vocabulary: &str, position: usize) -> (e: ParseError)
        ensures
            e@ == unknown_field(name@, vocabulary@, position as int),
    {
        let mut message = String::from_str(UNEXPECTED_ATTRIBUTE);
        message.append(name);
        message.append(vocabulary);
        ParseError { kind: ErrorKind::UnknownField, message, position }
    }
}

} // verus!
