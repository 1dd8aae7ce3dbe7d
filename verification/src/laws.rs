//! What holds of every entry and of every document, proved from the
//! definitions of the grammar and of the emission.

use vstd::prelude::*;
use crate::decimal::decimal_text;
use crate::error::syntax_error;
use crate::error::ErrorKind;
use crate::error::ParseErrorView;
use crate::error::EXPECTED_EQUALS;
use crate::error::HEADER_VOCABULARY;
use crate::error::RESPONSE_VOCABULARY;
use crate::error::UNEXPECTED_ATTRIBUTE;
use crate::fragment::spec_entry_fragment;
use crate::fragment::spec_response_fragment;
use crate::fragment::spec_responses_fragment;
use crate::fragment::spec_schema;
use crate::fragment::ContentView;
use crate::fragment::APPLICATION_JSON;
use crate::fragment::TEXT_PLAIN;
use crate::header::spec_parse_header;
use crate::header::spec_parse_header_type;
use crate::header::spec_parse_whole_header;
use crate::header::HeaderView;
use crate::header::DESCRIPTION;
use crate::response::empty_response;
use crate::response::field_key;
use crate::response::lemma_field_advances;
use crate::response::spec_parse_field;
use crate::response::spec_parse_fields;
use crate::response::spec_parse_header_list;
use crate::response::spec_parse_response;
use crate::response::ResponseView;
use crate::token::has_kind;
use crate::token::TokenKind;
use crate::token::TokenView;
use crate::type_ref::TypeReferenceView;

verus! {

/// Parsing and then emitting is deterministic: the same tokens, with the
/// same primitive types, give the same fragment, character for character,
/// or the same error.
pub proof fn lemma_same_entry_same_fragment(
    first: Seq<TokenView>,
    second: Seq<TokenView>,
    primitives_first: Set<Seq<char>>,
    primitives_second: Set<Seq<char>>,
)
    requires
        first =~= second,
        primitives_first =~= primitives_second,
    ensures
        spec_entry_fragment(first, primitives_first) == spec_entry_fragment(
            second,
            primitives_second,
        ),
{
}

/// The fragment of a response depends on the primitive types only through
/// the types that the response names: two sets of primitive types that
/// agree on the body's type and on the type of each header give the same
/// fragment.
pub proof fn lemma_only_named_types_matter(
    response: ResponseView,
    first: Set<Seq<char>>,
    second: Set<Seq<char>>,
)
    requires
        response.body matches Some(t) ==> first.contains(t.name) == second.contains(t.name),
        forall|i: int|
            0 <= i < response.headers.len() ==> (
            #[trigger] response.headers[i].value_type matches Some(t) ==> first.contains(t.name)
                == second.contains(t.name)),
    ensures
        spec_response_fragment(response, first) == spec_response_fragment(response, second),
{
    assert(spec_response_fragment(response, first).headers =~= spec_response_fragment(
        response,
        second,
    ).headers);
}

/// A response without a body has no content in the document, whatever
/// content type its entry asks for.
pub proof fn lemma_no_body_no_content(response: ResponseView, primitives: Set<Seq<char>>)
    requires
        response.body is None,
    ensures
        spec_response_fragment(response, primitives).content is None,
{
}

/// A content type that the entry asks for is the content type of the body,
/// whether the body's type is primitive or not.
pub proof fn lemma_explicit_content_type_wins(
    response: ResponseView,
    primitives: Set<Seq<char>>,
    content_type: Seq<char>,
)
    requires
        response.body is Some,
        response.content_type == Some(content_type),
    ensures
        spec_response_fragment(response, primitives).content matches Some(content)
            && content.content_type == content_type,
{
}

/// Without a content type in the entry, a body of a primitive type is
/// `text/plain` and any other body is `application/json`; the content holds
/// the body's type, as an array where the entry wrote it in brackets.
pub proof fn lemma_inferred_content_type(response: ResponseView, primitives: Set<Seq<char>>)
    requires
        response.body is Some,
        response.content_type is None,
    ensures
        spec_response_fragment(response, primitives).content == Some(
            ContentView {
                content_type: if primitives.contains(response.body->0.name) {
                    TEXT_PLAIN@
                } else {
                    APPLICATION_JSON@
                },
                schema: spec_schema(response.body->0, primitives),
            },
        ),
        spec_schema(response.body->0, primitives).is_array == response.body->0.is_array,
        spec_schema(response.body->0, primitives).name == response.body->0.name,
{
}

/// A list of headers is read in the order in which it is written: the
/// headers that were read before a position stay in front, in their order,
/// of those that are read from it.
pub proof fn lemma_headers_are_read_in_order(ts: Seq<TokenView>, at: int, so_far: Seq<HeaderView>)
    requires
        0 <= at,
    ensures
        spec_parse_header_list(ts, at, so_far) matches Ok((headers, _)) ==> so_far.len()
            <= headers.len() && headers.take(so_far.len() as int) == so_far,
    decreases ts.len() - at,
{
    if has_kind(ts, at, TokenKind::CloseBracket) {
        assert(so_far.take(so_far.len() as int) =~= so_far);
    } else if has_kind(ts, at, TokenKind::OpenParen) {
        if let Ok((header, end)) = spec_parse_header(ts, at + 1) {
            let longer = so_far.push(header);
            assert(longer.take(so_far.len() as int) =~= so_far);
            if has_kind(ts, end, TokenKind::CloseParen) && !has_kind(
                ts,
                end + 1,
                TokenKind::CloseBracket,
            ) && has_kind(ts, end + 1, TokenKind::Comma) {
                lemma_headers_are_read_in_order(ts, end + 2, longer);
                if let Ok((headers, _)) = spec_parse_header_list(ts, end + 2, longer) {
                    assert(headers.take(so_far.len() as int) =~= headers.take(
                        longer.len() as int,
                    ).take(so_far.len() as int));
                }
            }
        }
    }
}

/// The headers of a response stand in the document in the order of the
/// entry, each under its own name.
pub proof fn lemma_headers_keep_their_order(response: ResponseView, primitives: Set<Seq<char>>)
    ensures
        spec_response_fragment(response, primitives).headers.len() == response.headers.len(),
        forall|i: int|
            0 <= i < response.headers.len() ==> (#[trigger] spec_response_fragment(
                response,
                primitives,
            ).headers[i]).name == response.headers[i].name,
{
}

/// The responses stand in the document in the order in which they were
/// given, each under its status written in base ten.
pub proof fn lemma_responses_keep_their_order(
    responses: Seq<ResponseView>,
    primitives: Set<Seq<char>>,
)
    ensures
        spec_responses_fragment(responses, primitives).len() == responses.len(),
        forall|i: int|
            0 <= i < responses.len() ==> (#[trigger] spec_responses_fragment(
                responses,
                primitives,
            )[i]) == spec_response_fragment(responses[i], primitives),
        forall|i: int|
            0 <= i < responses.len() ==> (#[trigger] spec_responses_fragment(
                responses,
                primitives,
            )[i]).status == decimal_text(responses[i].status_code),
{
}

/// An identifier that is no key of a response, standing where a field
/// starts, is rejected as an unknown field at its position, whatever
/// follows it. The message names the identifier and lists the five keys.
pub proof fn lemma_unknown_field_is_rejected(ts: Seq<TokenView>, at: int, so_far: ResponseView)
    requires
        has_kind(ts, at, TokenKind::Ident),
        field_key(ts[at].text) is None,
    ensures
        spec_parse_fields(ts, at, so_far) == Err::<ResponseView, ParseErrorView>(
            ParseErrorView {
                kind: ErrorKind::UnknownField,
                message: UNEXPECTED_ATTRIBUTE@ + ts[at].text + RESPONSE_VOCABULARY@,
                position: at,
            },
        ),
        at == 0 ==> spec_parse_response(ts) == spec_parse_fields(ts, at, so_far),
{
}

/// A key of a response without `=` behind it is rejected as a syntax error
/// at the position where the `=` is missing.
pub proof fn lemma_missing_equals_is_rejected(ts: Seq<TokenView>, at: int, so_far: ResponseView)
    requires
        has_kind(ts, at, TokenKind::Ident),
        field_key(ts[at].text) is Some,
        !has_kind(ts, at + 1, TokenKind::Equals),
    ensures
        spec_parse_fields(ts, at, so_far) == Err::<ResponseView, ParseErrorView>(
            syntax_error(EXPECTED_EQUALS@, at + 1),
        ),
        at == 0 ==> spec_parse_response(ts) == spec_parse_fields(ts, at, so_far),
{
}

/// An identifier other than `description` behind a header's name, its
/// type if it has one, and a `,` if there is one, is rejected as an unknown
/// field at its position. The message names the identifier and says that
/// `description` was expected.
pub proof fn lemma_unknown_header_key_is_rejected(
    ts: Seq<TokenView>,
    at: int,
    value_type: Option<TypeReferenceView>,
    after_type: int,
    key_at: int,
)
    requires
        has_kind(ts, at, TokenKind::Str),
        spec_parse_header_type(ts, at + 1) == Ok::<
            (Option<TypeReferenceView>, int),
            ParseErrorView,
        >((value_type, after_type)),
        key_at == if has_kind(ts, after_type, TokenKind::Comma) {
            after_type + 1
        } else {
            after_type
        },
        has_kind(ts, key_at, TokenKind::Ident),
        ts[key_at].text != DESCRIPTION@,
    ensures
        spec_parse_header(ts, at) == Err::<(HeaderView, int), ParseErrorView>(
            ParseErrorView {
                kind: ErrorKind::UnknownField,
                message: UNEXPECTED_ATTRIBUTE@ + ts[key_at].text + HEADER_VOCABULARY@,
                position: key_at,
            },
        ),
        at == 0 ==> spec_parse_whole_header(ts) == Err::<HeaderView, ParseErrorView>(
            spec_parse_header(ts, at)->Err_0,
        ),
{
}

/// A header is rejected at a position from its start to the end of the
/// tokens, and accepted up to a position behind its start.
proof fn lemma_header_positions(ts: Seq<TokenView>, at: int)
    requires
        0 <= at <= ts.len(),
    ensures
        spec_parse_header(ts, at) matches Err(e) ==> at <= e.position <= ts.len(),
        spec_parse_header(ts, at) matches Ok((_, next)) ==> at < next <= ts.len(),
{
}

/// A list of headers is rejected at a position from its start to the end
/// of the tokens.
proof fn lemma_header_list_positions(ts: Seq<TokenView>, at: int, so_far: Seq<HeaderView>)
    requires
        0 <= at <= ts.len(),
    ensures
        spec_parse_header_list(ts, at, so_far) matches Err(e) ==> at <= e.position <= ts.len(),
    decreases ts.len() - at,
{
    if has_kind(ts, at, TokenKind::OpenParen) {
        lemma_header_positions(ts, at + 1);
        if let Ok((header, end)) = spec_parse_header(ts, at + 1) {
            if has_kind(ts, end, TokenKind::CloseParen) && !has_kind(
                ts,
                end + 1,
                TokenKind::CloseBracket,
            ) && has_kind(ts, end + 1, TokenKind::Comma) {
                lemma_header_list_positions(ts, end + 2, so_far.push(header));
            }
        }
    }
}

/// The fields from `at` are rejected at a position from `at` to the end of
/// the tokens.
proof fn lemma_fields_positions(ts: Seq<TokenView>, at: int, so_far: ResponseView)
    requires
        0 <= at <= ts.len(),
    ensures
        spec_parse_fields(ts, at, so_far) matches Err(e) ==> at <= e.position <= ts.len(),
    decreases ts.len() - at,
{
    lemma_field_advances(ts, at, so_far);
    if has_kind(ts, at + 1, TokenKind::Equals) && has_kind(ts, at + 2, TokenKind::OpenBracket) {
        lemma_header_list_positions(ts, at + 3, Seq::empty());
    }
    if let Ok((response, end)) = spec_parse_field(ts, at, so_far) {
        let next = if has_kind(ts, end, TokenKind::Comma) {
            end + 1
        } else {
            end
        };
        if next < ts.len() {
            lemma_fields_positions(ts, next, response);
        }
    }
}

/// The position of an error is the index of a token of the entry, or the
/// number of its tokens where the entry ended too early: never beyond.
pub proof fn lemma_error_is_within_the_entry(ts: Seq<TokenView>)
    ensures
        spec_parse_response(ts) matches Err(e) ==> 0 <= e.position <= ts.len(),
        spec_parse_whole_header(ts) matches Err(e) ==> 0 <= e.position <= ts.len(),
{
    lemma_fields_positions(ts, 0, empty_response());
    lemma_header_positions(ts, 0);
}

} // verus!
