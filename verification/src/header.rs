//! One header of a response: `("name" = Type, description = "text")`.

use vstd::prelude::*;
use crate::error::syntax_error;
use crate::error::unknown_field;
use crate::error::ParseError;
use crate::error::ParseErrorView;
use crate::error::EXPECTED_HEADER_NAME;
use crate::error::EXPECTED_STRING;
use crate::error::HEADER_VOCABULARY;
use crate::error::UNEXPECTED_TOKEN;
use crate::token::has_kind;
use crate::token::kind_at;
use crate::token::same_text;
use crate::token::text_view;
use crate::token::views;
use crate::token::Token;
use crate::token::TokenKind;
use crate::token::TokenView;
use crate::type_ref::spec_parse_type;
use crate::type_ref::type_view;
use crate::type_ref::TypeReference;
use crate::type_ref::TypeReferenceView;

verus! {

/// A header that a response carries.
#[derive(Clone, Debug, PartialEq, Eq)]
pub struct Header {
    /// The header's name on the wire.
    pub name: String,
    /// The type of the header's value. Without one the header is a plain
    /// string, which is decided when the header is emitted, not here.
    pub value_type: Option<TypeReference>,
    pub description: Option<String>,
}

/// The mathematical value of a [`Header`].
pub struct HeaderView {
    pub name: Seq<char>,
    pub value_type: Option<TypeReferenceView>,
    pub description: Option<Seq<char>>,
}

impl View for Header {
    type V = HeaderView;

    open spec fn view(&self) -> HeaderView {
        HeaderView {
            name: self.name@,
            value_type: type_view(self.value_type),
            description: text_view(self.description),
        }
    }
}

/// The values of a sequence of headers, in order.
pub open spec fn header_views(headers: Seq<Header>) -> Seq<HeaderView> {
    headers.map_values(|h: Header| h@)
}

/// The one key that may follow a header's name and type.
pub const DESCRIPTION: &'static str = "description";

/// The type behind `=`, where the header has one, with the position behind
/// it; no type and the position `at` where no `=` stands at `at`.
pub open spec fn spec_parse_header_type(ts: Seq<TokenView>, at: int) -> Result<
    (Option<TypeReferenceView>, int),
    ParseErrorView,
> {
    if has_kind(ts, at, TokenKind::Equals) {
        match spec_parse_type(ts, at + 1) {
            Ok((t, next)) => Ok((Some(t), next)),
            Err(e) => Err(e),
        }
    } else {
        Ok((None, at))
    }
}

/// The description that starts at `at`, where the header has one, with the
/// position behind it. An identifier at `at` has to be `description`; the
/// `=` behind it may be left out, the string may not.
pub open spec fn spec_parse_header_description(ts: Seq<TokenView>, at: int) -> Result<
    (Option<Seq<char>>, int),
    ParseErrorView,
> {
    if !has_kind(ts, at, TokenKind::Ident) {
        Ok((None, at))
    } else if ts[at].text != DESCRIPTION@ {
        Err(unknown_field(ts[at].text, HEADER_VOCABULARY@, at))
    } else {
        let value_at = if has_kind(ts, at + 1, TokenKind::Equals) {
            at + 2
        } else {
            at + 1
        };
        if has_kind(ts, value_at, TokenKind::Str) {
            Ok((Some(ts[value_at].text), value_at + 1))
        } else {
            Err(syntax_error(EXPECTED_STRING@, value_at))
        }
    }
}

/// The header that starts at `at`, with the position behind it:
///
/// ```text
/// header := STR ["=" type_expr] [","] ["description" ["="] STR]
/// ```
pub open spec fn spec_parse_header(ts: Seq<TokenView>, at: int) -> Result<
    (HeaderView, int),
    ParseErrorView,
> {
    if !has_kind(ts, at, TokenKind::Str) {
        Err(syntax_error(EXPECTED_HEADER_NAME@, at))
    } else {
        match spec_parse_header_type(ts, at + 1) {
            Err(e) => Err(e),
            Ok((value_type, after_type)) => {
                let after_comma = if has_kind(ts, after_type, TokenKind::Comma) {
                    after_type + 1
                } else {
                    after_type
                };
                match spec_parse_header_description(ts, after_comma) {
                    Err(e) => Err(e),
                    Ok((description, next)) => Ok(
                        (HeaderView { name: ts[at].text, value_type, description }, next),
                    ),
                }
            },
        }
    }
}

/// The header that `ts` is, from its first token to its last.
pub open spec fn spec_parse_whole_header(ts: Seq<TokenView>) -> Result<HeaderView, ParseErrorView> {
    match spec_parse_header(ts, 0) {
        Err(e) => Err(e),
        Ok((header, next)) => if next < ts.len() {
            Err(syntax_error(UNEXPECTED_TOKEN@, next))
        } else {
            Ok(header)
        },
    }
}

impl Header {
    /// Parses the header that starts at `at` and returns it with the
    /// position behind it.
    pub fn parse_at(tokens: &[Token], at: usize) -> (r: Result<(Header, usize), ParseError>)
        ensures
            match r {
                Ok((h, next)) => spec_parse_header(views(tokens@), at as int) == Ok::<
                    (HeaderView, int),
                    ParseErrorView,
                >((h@, next as int)),
                Err(e) => spec_parse_header(views(tokens@), at as int) == Err::<
                    (HeaderView, int),
                    ParseErrorView,
                >(e@),
            },
    {
        if !kind_at(tokens, at, TokenKind::Str) {
            return Err(ParseError::syntax(EXPECTED_HEADER_NAME, at));
        }
        let name = tokens[at].text.clone();
        let mut next = at + 1;
        let mut value_type: Option<TypeReference> = None;
        if kind_at(tokens, next, TokenKind::Equals) {
            match TypeReference::parse_at(tokens, next + 1) {
                Ok((t, after)) => {
                    value_type = Some(t);
                    next = after;
                },
                Err(e) => {
                    return Err(e);
                },
            }
        }
        if kind_at(tokens, next, TokenKind::Comma) {
            next = next + 1;
        }
        let mut description: Option<String> = None;
        if kind_at(tokens, next, TokenKind::Ident) {
            if !same_text(&tokens[next].text, DESCRIPTION) {
                return Err(ParseError::unknown(tokens[next].text.as_str(), HEADER_VOCABULARY, next));
            }
            next = next + 1;
            if kind_at(tokens, next, TokenKind::Equals) {
                next = next + 1;
            }
            if !kind_at(tokens, next, TokenKind::Str) {
                return Err(ParseError::syntax(EXPECTED_STRING, next));
            }
            description = Some(tokens[next].text.clone());
            next = next + 1;
        }
        Ok((Header { name, value_type, description }, next))
    }

    /// Parses `tokens` as one header: what stands between the parentheses
    /// of `("name" = Type, description = "text")`.
    pub fn parse(tokens: &[Token]) -> (r: Result<Header, ParseError>)
        ensures
            match r {
                Ok(h) => spec_parse_whole_header(views(tokens@)) == Ok::<HeaderView, ParseErrorView>(
                    h@,
                ),
                Err(e) => spec_parse_whole_header(views(tokens@)) == Err::<
                    HeaderView,
                    ParseErrorView,
                >(e@),
            },
    {
        match Header::parse_at(tokens, 0) {
            Err(e) => Err(e),
            Ok((header, next)) => {
                if next < tokens.len() {
                    Err(ParseError::syntax(UNEXPECTED_TOKEN, next))
                } else {
                    Ok(header)
                }
            },
        }
    }
}

} // verus!
