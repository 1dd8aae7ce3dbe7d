//! Type expressions: a name, or a name in brackets for an array of it.

use vstd::prelude::*;
use crate::error::malformed_type;
use crate::error::ParseError;
use crate::error::ParseErrorView;
use crate::error::EXPECTED_CLOSING_BRACKET;
use crate::error::EXPECTED_ELEMENT_TYPE;
use crate::error::EXPECTED_TYPE;
use crate::token::has_kind;
use crate::token::kind_at;
use crate::token::views;
use crate::token::Token;
use crate::token::TokenKind;
use crate::token::TokenView;

verus! {

/// A type as an entry writes it. Only the syntax is known here; what the name
/// stands for is for a [`crate::resolver::TypeResolver`] to say.
#[derive(Clone, Debug, PartialEq, Eq)]
pub struct TypeReference {
    /// Whether the name stood in brackets.
    pub is_array: bool,
    /// The name of the type, or of the array's elements.
    pub name: String,
}

/// The mathematical value of a [`TypeReference`].
pub struct TypeReferenceView {
    pub is_array: bool,
    pub name: Seq<char>,
}

impl View for TypeReference {
    type V = TypeReferenceView;

    open spec fn view(&self) -> TypeReferenceView {
        TypeReferenceView { is_array: self.is_array, name: self.name@ }
    }
}

/// The value of a type that may be absent.
pub open spec fn type_view(t: Option<TypeReference>) -> Option<TypeReferenceView> {
    match t {
        Some(t) => Some(t@),
        None => None,
    }
}

/// The type expression that starts at `at`, with the position behind it:
///
/// ```text
/// type_expr := IDENT | "[" IDENT "]"
/// ```
pub open spec fn spec_parse_type(ts: Seq<TokenView>, at: int) -> Result<
    (TypeReferenceView, int),
    ParseErrorView,
> {
    if has_kind(ts, at, TokenKind::Ident) {
        Ok((TypeReferenceView { is_array: false, name: ts[at].text }, at + 1))
    } else if !has_kind(ts, at, TokenKind::OpenBracket) {
        Err(malformed_type(EXPECTED_TYPE@, at))
    } else if !has_kind(ts, at + 1, TokenKind::Ident) {
        Err(malformed_type(EXPECTED_ELEMENT_TYPE@, at + 1))
    } else if !has_kind(ts, at + 2, TokenKind::CloseBracket) {
        Err(malformed_type(EXPECTED_CLOSING_BRACKET@, at + 2))
    } else {
        Ok((TypeReferenceView { is_array: true, name: ts[at + 1].text }, at + 3))
    }
}

impl TypeReference {
    /// Parses the type expression that starts at `at` and returns it with
    /// the position behind it.
    pub fn parse_at(tokens: &[Token], at: usize) -> (r: Result<(TypeReference, usize), ParseError>)
        ensures
            match r {
                Ok((t, next)) => spec_parse_type(views(tokens@), at as int) == Ok::<
                    (TypeReferenceView, int),
                    ParseErrorView,
                >((t@, next as int)),
                Err(e) => spec_parse_type(views(tokens@), at as int) == Err::<
                    (TypeReferenceView, int),
                    ParseErrorView,
                >(e@),
            },
    {
        if kind_at(tokens, at, TokenKind::Ident) {
            let t = TypeReference { is_array: false, name: tokens[at].text.clone() };
            return Ok((t, at + 1));
        }
        if !kind_at(tokens, at, TokenKind::OpenBracket) {
            return Err(ParseError::malformed(EXPECTED_TYPE, at));
        }
        if !kind_at(tokens, at + 1, TokenKind::Ident) {
            return Err(ParseError::malformed(EXPECTED_ELEMENT_TYPE, at + 1));
        }
        if !kind_at(tokens, at + 2, TokenKind::CloseBracket) {
            return Err(ParseError::malformed(EXPECTED_CLOSING_BRACKET, at + 2));
        }
        let t = TypeReference { is_array: true, name: tokens[at + 1].text.clone() };
        Ok((t, at + 3))
    }
}

} // verus!
