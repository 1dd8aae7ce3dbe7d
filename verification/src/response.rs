//! One response of an operation:
//! `(status = 200, description = "text", body = [Type], content_type = "mime", headers = [..])`.

use vstd::prelude::*;
use crate::decimal::parse_i32;
use crate::decimal::spec_parse_i32;
use crate::decimal::NumberError;
use crate::error::syntax_error;
use crate::error::unknown_field;
use crate::error::ParseError;
use crate::error::ParseErrorView;
use crate::error::EXPECTED_EQUALS;
use crate::error::EXPECTED_HEADERS;
use crate::error::EXPECTED_INTEGER;
use crate::error::EXPECTED_KEY;
use crate::error::EXPECTED_STRING;
use crate::error::NUMBER_EMPTY;
use crate::error::NUMBER_INVALID_DIGIT;
use crate::error::NUMBER_TOO_LARGE;
use crate::error::RESPONSE_VOCABULARY;
use crate::error::UNEXPECTED_TOKEN;
use crate::header::header_views;
use crate::header::spec_parse_header;
use crate::header::Header;
use crate::header::HeaderView;
use crate::header::DESCRIPTION;
use crate::token::has_kind;
use crate::token::kind_at;
use crate::token::same_text;
use crate::token::text_view;
use crate::token::views;
use crate::token::Token;
use crate::token::TokenKind;
use crate::token::TokenView;
use crate::type_ref::spec_parse_type;
use crate::type_ref::type_view;
use crate::type_ref::TypeReference;
use crate::type_ref::TypeReferenceView;

verus! {

/// A response as its entry describes it. Nothing is inferred here: what the
/// entry leaves out stays absent until the response is emitted.
#[derive(Clone, Debug, PartialEq, Eq)]
pub struct Response {
    /// The HTTP status. An entry without `status` leaves it at 0, which is no
    /// HTTP status: see [`Response::parse`].
    pub status_code: i32,
    /// Free text; empty where the entry has no `description`.
    pub description: String,
    /// The type of the body; `None` for a response without a body.
    pub body: Option<TypeReference>,
    /// The MIME type that the entry asks for. Without one it is inferred
    /// from the body when the response is emitted.
    pub content_type: Option<String>,
    /// The headers, in the order of the entry.
    pub headers: Vec<Header>,
}

/// The mathematical value of a [`Response`].
pub struct ResponseView {
    pub status_code: int,
    pub description: Seq<char>,
    pub body: Option<TypeReferenceView>,
    pub content_type: Option<Seq<char>>,
    pub headers: Seq<HeaderView>,
}

impl View for Response {
    type V = ResponseView;

    open spec fn view(&self) -> ResponseView {
        ResponseView {
            status_code: self.status_code as int,
            description: self.description@,
            body: type_view(self.body),
            content_type: text_view(self.content_type),
            headers: header_views(self.headers@),
        }
    }
}

/// The values of a sequence of responses, in order.
pub open spec fn response_views(responses: Seq<Response>) -> Seq<ResponseView> {
    responses.map_values(|r: Response| r@)
}

/// The response of an entry without fields: status 0, no text, no body, no
/// content type, no headers.
pub open spec fn empty_response() -> ResponseView {
    ResponseView {
        status_code: 0,
        description: Seq::empty(),
        body: None,
        content_type: None,
        headers: Seq::empty(),
    }
}

impl Default for Response {
    fn default() -> (r: Response)
        ensures
            r@ == empty_response(),
    {
        let r = Response {
            status_code: 0,
            description: String::new(),
            body: None,
            content_type: None,
            headers: Vec::new(),
        };
        assert(header_views(r.headers@) =~= Seq::empty());
        r
    }
}

/// The key `status`.
pub const STATUS: &'static str = "status";

/// The key `body`.
pub const BODY: &'static str = "body";

/// The key `content_type`.
pub const CONTENT_TYPE: &'static str = "content_type";

/// The key `headers`.
pub const HEADERS: &'static str = "headers";

/// The fields that a response entry may hold.
#[derive(Clone, Copy, Debug, PartialEq, Eq, Structural)]
pub enum FieldKey {
    Status,
    Description,
    Body,
    ContentType,
    Headers,
}

/// The field that the identifier `name` is the key of; `None` for any
/// identifier but `status`, `description`, `body`, `content_type` and
/// `headers`.
pub open spec fn field_key(name: Seq<char>) -> Option<FieldKey> {
    if name == STATUS@ {
        Some(FieldKey::Status)
    } else if name == DESCRIPTION@ {
        Some(FieldKey::Description)
    } else if name == BODY@ {
        Some(FieldKey::Body)
    } else if name == CONTENT_TYPE@ {
        Some(FieldKey::ContentType)
    } else if name == HEADERS@ {
        Some(FieldKey::Headers)
    } else {
        None
    }
}

impl FieldKey {
    /// The field that the identifier `name` is the key of.
    pub fn of(name: &String) -> (r: Option<FieldKey>)
        ensures
            r == field_key(name@),
    {
        if same_text(name, STATUS) {
            Some(FieldKey::Status)
        } else if same_text(name, DESCRIPTION) {
            Some(FieldKey::Description)
        } else if same_text(name, BODY) {
            Some(FieldKey::Body)
        } else if same_text(name, CONTENT_TYPE) {
            Some(FieldKey::ContentType)
        } else if same_text(name, HEADERS) {
            Some(FieldKey::Headers)
        } else {
            None
        }
    }
}

/// The position behind the `=` that has to stand at `at`.
pub open spec fn spec_parse_next(ts: Seq<TokenView>, at: int) -> Result<int, ParseErrorView> {
    if has_kind(ts, at, TokenKind::Equals) {
        Ok(at + 1)
    } else {
        Err(syntax_error(EXPECTED_EQUALS@, at))
    }
}

/// What a status code that cannot be read is reported with.
pub open spec fn number_message(e: NumberError) -> Seq<char> {
    match e {
        NumberError::Empty => NUMBER_EMPTY@,
        NumberError::InvalidDigit => NUMBER_INVALID_DIGIT@,
        NumberError::TooLarge => NUMBER_TOO_LARGE@,
    }
}

/// The status code at `at`, an integer literal in base ten that fits an
/// `i32`, with the position behind it.
pub open spec fn spec_parse_status(ts: Seq<TokenView>, at: int) -> Result<
    (int, int),
    ParseErrorView,
> {
    if !has_kind(ts, at, TokenKind::Int) {
        Err(syntax_error(EXPECTED_INTEGER@, at))
    } else {
        match spec_parse_i32(ts[at].text) {
            Ok(n) => Ok((n, at + 1)),
            Err(e) => Err(syntax_error(number_message(e), at)),
        }
    }
}

/// The string literal at `at`, with the position behind it.
pub open spec fn spec_parse_text(ts: Seq<TokenView>, at: int) -> Result<
    (Seq<char>, int),
    ParseErrorView,
> {
    if has_kind(ts, at, TokenKind::Str) {
        Ok((ts[at].text, at + 1))
    } else {
        Err(syntax_error(EXPECTED_STRING@, at))
    }
}

/// The rest of a list of headers from `at`, which is behind `[` or behind a
/// `,`, added to `so_far`, with the position behind the closing `]`:
///
/// ```text
/// headers := "[" [ "(" header ")" ("," "(" header ")")* [","] ] "]"
/// ```
pub open spec fn spec_parse_header_list(
    ts: Seq<TokenView>,
    at: int,
    so_far: Seq<HeaderView>,
) -> Result<(Seq<HeaderView>, int), ParseErrorView>
    decreases ts.len() - at,
{
    if has_kind(ts, at, TokenKind::CloseBracket) {
        Ok((so_far, at + 1))
    } else if !has_kind(ts, at, TokenKind::OpenParen) {
        Err(syntax_error(EXPECTED_HEADERS@, at))
    } else {
        match spec_parse_header(ts, at + 1) {
            Err(e) => Err(e),
            Ok((header, end)) => if !has_kind(ts, end, TokenKind::CloseParen) {
                Err(syntax_error(UNEXPECTED_TOKEN@, end))
            } else if has_kind(ts, end + 1, TokenKind::CloseBracket) {
                Ok((so_far.push(header), end + 2))
            } else if !has_kind(ts, end + 1, TokenKind::Comma) {
                Err(syntax_error(EXPECTED_HEADERS@, end + 1))
            } else {
                spec_parse_header_list(ts, end + 2, so_far.push(header))
            },
        }
    }
}

/// The list of headers that starts with the `[` at `at`, with the position
/// behind its `]`.
pub open spec fn spec_parse_headers(ts: Seq<TokenView>, at: int) -> Result<
    (Seq<HeaderView>, int),
    ParseErrorView,
> {
    if has_kind(ts, at, TokenKind::OpenBracket) {
        spec_parse_header_list(ts, at + 1, Seq::empty())
    } else {
        Err(syntax_error(EXPECTED_HEADERS@, at))
    }
}

/// The response `so_far` with the value at `at` as its field `key`, and the
/// position behind that value. A field that the entry gives twice holds
/// the later value.
pub open spec fn spec_parse_value(
    ts: Seq<TokenView>,
    at: int,
    key: FieldKey,
    so_far: ResponseView,
) -> Result<(ResponseView, int), ParseErrorView> {
    match key {
        FieldKey::Status => match spec_parse_status(ts, at) {
            Ok((n, next)) => Ok((ResponseView { status_code: n, ..so_far }, next)),
            Err(e) => Err(e),
        },
        FieldKey::Description => match spec_parse_text(ts, at) {
            Ok((text, next)) => Ok((ResponseView { description: text, ..so_far }, next)),
            Err(e) => Err(e),
        },
        FieldKey::Body => match spec_parse_type(ts, at) {
            Ok((t, next)) => Ok((ResponseView { body: Some(t), ..so_far }, next)),
            Err(e) => Err(e),
        },
        FieldKey::ContentType => match spec_parse_text(ts, at) {
            Ok((text, next)) => Ok((ResponseView { content_type: Some(text), ..so_far }, next)),
            Err(e) => Err(e),
        },
        FieldKey::Headers => match spec_parse_headers(ts, at) {
            Ok((headers, next)) => Ok((ResponseView { headers, ..so_far }, next)),
            Err(e) => Err(e),
        },
    }
}

/// The response `so_far` with the field whose key stands at `at`, and the
/// position behind the field:
///
/// ```text
/// field := "status" "=" INT | "description" "=" STR | "body" "=" type_expr
///        | "content_type" "=" STR | "headers" "=" headers
/// ```
///
/// The key is looked up before the `=` is asked for, so an unknown key is
/// reported as such whatever follows it.
pub open spec fn spec_parse_field(ts: Seq<TokenView>, at: int, so_far: ResponseView) -> Result<
    (ResponseView, int),
    ParseErrorView,
> {
    if !has_kind(ts, at, TokenKind::Ident) {
        Err(syntax_error(EXPECTED_KEY@, at))
    } else {
        match field_key(ts[at].text) {
            None => Err(unknown_field(ts[at].text, RESPONSE_VOCABULARY@, at)),
            Some(key) => match spec_parse_next(ts, at + 1) {
                Err(e) => Err(e),
                Ok(value_at) => spec_parse_value(ts, value_at, key, so_far),
            },
        }
    }
}

/// The response `so_far` with the fields from `at` to the end of `ts`:
/// one field at least, a `,` behind a field or none, nothing else.
///
/// ```text
/// fields := field ([","] field)* [","]
/// ```
pub open spec fn spec_parse_fields(ts: Seq<TokenView>, at: int, so_far: ResponseView) -> Result<
    ResponseView,
    ParseErrorView,
>
    decreases ts.len() - at,
    when 0 <= at
    via spec_parse_fields_decreases
{
    match spec_parse_field(ts, at, so_far) {
        Err(e) => Err(e),
        Ok((response, end)) => {
            let next = if has_kind(ts, end, TokenKind::Comma) {
                end + 1
            } else {
                end
            };
            if next < ts.len() {
                spec_parse_fields(ts, next, response)
            } else {
                Ok(response)
            }
        },
    }
}

#[via_fn]
proof fn spec_parse_fields_decreases(ts: Seq<TokenView>, at: int, so_far: ResponseView) {
    lemma_field_advances(ts, at, so_far);
}

/// The response that the tokens `ts` describe.
pub open spec fn spec_parse_response(ts: Seq<TokenView>) -> Result<ResponseView, ParseErrorView> {
    spec_parse_fields(ts, 0, empty_response())
}

/// A list of headers ends behind where it starts, and within the tokens.
pub proof fn lemma_header_list_advances(ts: Seq<TokenView>, at: int, so_far: Seq<HeaderView>)
    requires
        0 <= at,
    ensures
        spec_parse_header_list(ts, at, so_far) matches Ok((_, next)) ==> at < next <= ts.len(),
    decreases ts.len() - at,
{
    if has_kind(ts, at, TokenKind::OpenParen) {
        if let Ok((header, end)) = spec_parse_header(ts, at + 1) {
            if has_kind(ts, end, TokenKind::CloseParen) && !has_kind(
                ts,
                end + 1,
                TokenKind::CloseBracket,
            ) && has_kind(ts, end + 1, TokenKind::Comma) {
                lemma_header_list_advances(ts, end + 2, so_far.push(header));
            }
        }
    }
}

/// A field ends behind where it starts, and within the tokens.
pub proof fn lemma_field_advances(ts: Seq<TokenView>, at: int, so_far: ResponseView)
    requires
        0 <= at,
    ensures
        spec_parse_field(ts, at, so_far) matches Ok((_, next)) ==> at < next <= ts.len(),
{
    if has_kind(ts, at + 1, TokenKind::Equals) && has_kind(ts, at + 2, TokenKind::OpenBracket) {
        lemma_header_list_advances(ts, at + 3, Seq::empty());
    }
}

/// Steps over the `=` that has to stand at `at`, between a key and its
/// value, and returns the position of the value.
pub fn parse_next(tokens: &[Token], at: usize) -> (r: Result<usize, ParseError>)
    ensures
        match r {
            Ok(next) => spec_parse_next(views(tokens@), at as int) == Ok::<int, ParseErrorView>(
                next as int,
            ),
            Err(e) => spec_parse_next(views(tokens@), at as int) == Err::<int, ParseErrorView>(e@),
        },
{
    if kind_at(tokens, at, TokenKind::Equals) {
        Ok(at + 1)
    } else {
        Err(ParseError::syntax(EXPECTED_EQUALS, at))
    }
}

/// Reads the status code at `at`.
pub fn parse_status(tokens: &[Token], at: usize) -> (r: Result<(i32, usize), ParseError>)
    ensures
        match r {
            Ok((n, next)) => spec_parse_status(views(tokens@), at as int) == Ok::<
                (int, int),
                ParseErrorView,
            >((n as int, next as int)),
            Err(e) => spec_parse_status(views(tokens@), at as int) == Err::<
                (int, int),
                ParseErrorView,
            >(e@),
        },
{
    if !kind_at(tokens, at, TokenKind::Int) {
        return Err(ParseError::syntax(EXPECTED_INTEGER, at));
    }
    match parse_i32(tokens[at].text.as_str()) {
        Ok(n) => Ok((n, at + 1)),
        Err(NumberError::Empty) => Err(ParseError::syntax(NUMBER_EMPTY, at)),
        Err(NumberError::InvalidDigit) => Err(ParseError::syntax(NUMBER_INVALID_DIGIT, at)),
        Err(NumberError::TooLarge) => Err(ParseError::syntax(NUMBER_TOO_LARGE, at)),
    }
}

/// Reads the string literal at `at`.
pub fn parse_text(tokens: &[Token], at: usize) -> (r: Result<(String, usize), ParseError>)
    ensures
        match r {
            Ok((text, next)) => spec_parse_text(views(tokens@), at as int) == Ok::<
                (Seq<char>, int),
                ParseErrorView,
            >((text@, next as int)),
            Err(e) => spec_parse_text(views(tokens@), at as int) == Err::<
                (Seq<char>, int),
                ParseErrorView,
            >(e@),
        },
{
    if kind_at(tokens, at, TokenKind::Str) {
        Ok((tokens[at].text.clone(), at + 1))
    } else {
        Err(ParseError::syntax(EXPECTED_STRING, at))
    }
}

/// Reads the list of headers that starts with the `[` at `at`. Each header
/// stands in parentheses of its own.
pub fn parse_headers(tokens: &[Token], at: usize) -> (r: Result<(Vec<Header>, usize), ParseError>)
    ensures
        match r {
            Ok((headers, next)) => spec_parse_headers(views(tokens@), at as int) == Ok::<
                (Seq<HeaderView>, int),
                ParseErrorView,
            >((header_views(headers@), next as int)),
            Err(e) => spec_parse_headers(views(tokens@), at as int) == Err::<
                (Seq<HeaderView>, int),
                ParseErrorView,
            >(e@),
        },
{
    if !kind_at(tokens, at, TokenKind::OpenBracket) {
        return Err(ParseError::syntax(EXPECTED_HEADERS, at));
    }
    let ghost ts = views(tokens@);
    let mut headers: Vec<Header> = Vec::new();
    let mut open: usize = at + 1;
    assert(header_views(headers@) =~= Seq::empty());
    loop
        invariant
            ts == views(tokens@),
            open <= tokens.len(),
            spec_parse_header_list(ts, open as int, header_views(headers@)) == spec_parse_headers(
                ts,
                at as int,
            ),
        decreases tokens.len() - open,
    {
        if kind_at(tokens, open, TokenKind::CloseBracket) {
            return Ok((headers, open + 1));
        }
        if !kind_at(tokens, open, TokenKind::OpenParen) {
            return Err(ParseError::syntax(EXPECTED_HEADERS, open));
        }
        let (header, end) = match Header::parse_at(tokens, open + 1) {
            Ok(parsed) => parsed,
            Err(e) => {
                return Err(e);
            },
        };
        if !kind_at(tokens, end, TokenKind::CloseParen) {
            return Err(ParseError::syntax(UNEXPECTED_TOKEN, end));
        }
        let ghost before = header_views(headers@);
        headers.push(header);
        assert(header_views(headers@) =~= before.push(header@));
        if kind_at(tokens, end + 1, TokenKind::CloseBracket) {
            return Ok((headers, end + 2));
        }
        if !kind_at(tokens, end + 1, TokenKind::Comma) {
            return Err(ParseError::syntax(EXPECTED_HEADERS, end + 1));
        }
        open = end + 2;
    }
}

impl Response {
    /// Parses `tokens` as one response: what stands between the parentheses
    /// of `(status = 200, description = "text")`.
    ///
    /// The result is [`spec_parse_response`] of the tokens, the response as
    /// well as the error. An entry without `status` is accepted and keeps
    /// the status 0; so is one without `description`, with an empty text.
    pub fn parse(tokens: &[Token]) -> (r: Result<Response, ParseError>)
        ensures
            match r {
                Ok(response) => spec_parse_response(views(tokens@)) == Ok::<
                    ResponseView,
                    ParseErrorView,
                >(response@),
                Err(e) => spec_parse_response(views(tokens@)) == Err::<
                    ResponseView,
                    ParseErrorView,
                >(e@),
            },
    {
        let ghost ts = views(tokens@);
        let mut response = Response::default();
        let mut at: usize = 0;
        loop
            invariant
                ts == views(tokens@),
                at <= tokens.len(),
                spec_parse_fields(ts, at as int, response@) == spec_parse_response(ts),
            decreases tokens.len() - at,
        {
            proof {
                lemma_field_advances(ts, at as int, response@);
            }
            if !kind_at(tokens, at, TokenKind::Ident) {
                return Err(ParseError::syntax(EXPECTED_KEY, at));
            }
            let key = match FieldKey::of(&tokens[at].text) {
                Some(key) => key,
                None => {
                    return Err(
                        ParseError::unknown(tokens[at].text.as_str(), RESPONSE_VOCABULARY, at),
                    );
                },
            };
            let value_at = match parse_next(tokens, at + 1) {
                Ok(value_at) => value_at,
                Err(e) => {
                    return Err(e);
                },
            };
            let end: usize;
            match key {
                FieldKey::Status => match parse_status(tokens, value_at) {
                    Ok((n, next)) => {
                        response.status_code = n;
                        end = next;
                    },
                    Err(e) => {
                        return Err(e);
                    },
                },
                FieldKey::Description => match parse_text(tokens, value_at) {
                    Ok((text, next)) => {
                        response.description = text;
                        end = next;
                    },
                    Err(e) => {
                        return Err(e);
                    },
                },
                FieldKey::Body => match TypeReference::parse_at(tokens, value_at) {
                    Ok((t, next)) => {
                        response.body = Some(t);
                        end = next;
                    },
                    Err(e) => {
                        return Err(e);
                    },
                },
                FieldKey::ContentType => match parse_text(tokens, value_at) {
                    Ok((text, next)) => {
                        response.content_type = Some(text);
                        end = next;
                    },
                    Err(e) => {
                        return Err(e);
                    },
                },
                FieldKey::Headers => match parse_headers(tokens, value_at) {
                    Ok((headers, next)) => {
                        response.headers = headers;
                        end = next;
                    },
                    Err(e) => {
                        return Err(e);
                    },
                },
            }
            let next = if kind_at(tokens, end, TokenKind::Comma) {
                end + 1
            } else {
                end
            };
            if next >= tokens.len() {
                return Ok(response);
            }
            at = next;
        }
    }
}

} // verus!
