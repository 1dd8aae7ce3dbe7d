//! The grammar, token by token.

use utoipa_gen::error::ErrorKind;
use utoipa_gen::error::ParseError;
use utoipa_gen::header::Header;
use utoipa_gen::response::parse_next;
use utoipa_gen::response::Response;
use utoipa_gen::token::Token;
use utoipa_gen::token::TokenKind;
use utoipa_gen::type_ref::TypeReference;

fn id(name: &str) -> Token {
    Token::ident(name)
}

fn p(sign: &str) -> Token {
    Token::punct(sign)
}

fn s(value: &str) -> Token {
    Token::new(TokenKind::Str, value)
}

fn n(digits: &str) -> Token {
    Token::new(TokenKind::Int, digits)
}

fn syntax_error(result: Result<Response, ParseError>, position: usize, message: &str) {
    let error = result.unwrap_err();
    assert_eq!(error.kind, ErrorKind::SyntaxError);
    assert_eq!(error.position, position);
    assert_eq!(error.message, message);
}

#[test]
fn empty_entry_has_no_key() {
    syntax_error(Response::parse(&[]), 0, "unparseable response expected to find Ident");
}

#[test]
fn field_must_start_with_an_identifier() {
    syntax_error(
        Response::parse(&[s("status"), p("="), n("200")]),
        0,
        "unparseable response expected to find Ident",
    );
    syntax_error(
        Response::parse(&[id("status"), p("="), n("200"), p(","), p(",")]),
        4,
        "unparseable response expected to find Ident",
    );
}

#[test]
fn entry_without_status_keeps_zero() {
    let response = Response::parse(&[id("description"), p("="), s("text")]).unwrap();
    assert_eq!(response.status_code, 0);
    assert_eq!(response.description, "text");
}

#[test]
fn entry_without_description_keeps_empty_text() {
    let response = Response::parse(&[id("status"), p("="), n("204")]).unwrap();
    assert_eq!(response.status_code, 204);
    assert_eq!(response.description, "");
    assert!(response.body.is_none());
    assert!(response.content_type.is_none());
    assert!(response.headers.is_empty());
}

#[test]
fn trailing_comma_is_accepted() {
    let response = Response::parse(&[id("status"), p("="), n("200"), p(",")]).unwrap();
    assert_eq!(response.status_code, 200);
}

#[test]
fn comma_between_fields_may_be_left_out() {
    let response = Response::parse(&[
        id("status"),
        p("="),
        n("200"),
        id("description"),
        p("="),
        s("ok"),
    ])
    .unwrap();
    assert_eq!(response.status_code, 200);
    assert_eq!(response.description, "ok");
}

#[test]
fn later_value_of_a_field_wins() {
    let response = Response::parse(&[
        id("status"),
        p("="),
        n("200"),
        p(","),
        id("status"),
        p("="),
        n("404"),
        p(","),
        id("body"),
        p("="),
        id("Foo"),
        p(","),
        id("body"),
        p("="),
        p("["),
        id("Bar"),
        p("]"),
    ])
    .unwrap();
    assert_eq!(response.status_code, 404);
    assert_eq!(response.body, Some(TypeReference { is_array: true, name: "Bar".to_string() }));
}

#[test]
fn status_must_be_an_integer_literal() {
    syntax_error(
        Response::parse(&[id("status"), p("="), s("200")]),
        2,
        "expected integer literal",
    );
    syntax_error(Response::parse(&[id("status"), p("=")]), 2, "expected integer literal");
    syntax_error(
        Response::parse(&[id("status"), p("="), p("-"), n("1")]),
        2,
        "expected integer literal",
    );
}

#[test]
fn status_must_fit_an_i32() {
    let response = Response::parse(&[id("status"), p("="), n("2147483647")]).unwrap();
    assert_eq!(response.status_code, i32::MAX);
    syntax_error(
        Response::parse(&[id("status"), p("="), n("2147483648")]),
        2,
        "number too large to fit in target type",
    );
    syntax_error(
        Response::parse(&[id("status"), p("="), n("99999999999999999999999999")]),
        2,
        "number too large to fit in target type",
    );
}

#[test]
fn status_digits_must_be_digits() {
    syntax_error(
        Response::parse(&[id("status"), p("="), n("20x")]),
        2,
        "invalid digit found in string",
    );
    syntax_error(
        Response::parse(&[id("status"), p("="), n("")]),
        2,
        "cannot parse integer from empty string",
    );
}

#[test]
fn description_must_be_a_string_literal() {
    syntax_error(
        Response::parse(&[id("description"), p("="), n("1")]),
        2,
        "expected string literal",
    );
    syntax_error(
        Response::parse(&[id("content_type"), p("="), id("json")]),
        2,
        "expected string literal",
    );
}

#[test]
fn equals_is_asked_for_after_a_known_key_only() {
    syntax_error(
        Response::parse(&[id("body"), id("Foo")]),
        1,
        "expected euqals sign token (=)",
    );
    let error = Response::parse(&[id("bodies"), id("Foo")]).unwrap_err();
    assert_eq!(error.kind, ErrorKind::UnknownField);
    assert_eq!(error.position, 0);
}

#[test]
fn parse_next_steps_over_equals() {
    let tokens = [id("status"), p("="), n("200")];
    assert_eq!(parse_next(&tokens, 1).unwrap(), 2);
    let error = parse_next(&tokens, 0).unwrap_err();
    assert_eq!(error.kind, ErrorKind::SyntaxError);
    assert_eq!(error.position, 0);
    let past_the_end = parse_next(&tokens, 3).unwrap_err();
    assert_eq!(past_the_end.position, 3);
}

#[test]
fn type_is_a_name_or_a_name_in_brackets() {
    let tokens = [id("Foo"), p("["), id("Bar"), p("]")];
    let (plain, next) = TypeReference::parse_at(&tokens, 0).unwrap();
    assert_eq!(plain, TypeReference { is_array: false, name: "Foo".to_string() });
    assert_eq!(next, 1);
    let (array, next) = TypeReference::parse_at(&tokens, 1).unwrap();
    assert_eq!(array, TypeReference { is_array: true, name: "Bar".to_string() });
    assert_eq!(next, 4);
}

#[test]
fn malformed_types() {
    let error = Response::parse(&[id("body"), p("="), s("Foo")]).unwrap_err();
    assert_eq!(error.kind, ErrorKind::MalformedType);
    assert_eq!(error.position, 2);

    let error = Response::parse(&[id("body"), p("=")]).unwrap_err();
    assert_eq!(error.kind, ErrorKind::MalformedType);
    assert_eq!(error.position, 2);

    let error = Response::parse(&[id("body"), p("="), p("["), p("]")]).unwrap_err();
    assert_eq!(error.kind, ErrorKind::MalformedType);
    assert_eq!(error.position, 3);

    let error =
        Response::parse(&[id("body"), p("="), p("["), id("Foo"), id("Bar"), p("]")]).unwrap_err();
    assert_eq!(error.kind, ErrorKind::MalformedType);
    assert_eq!(error.position, 4);

    let error = Response::parse(&[id("body"), p("="), p("["), id("Foo")]).unwrap_err();
    assert_eq!(error.kind, ErrorKind::MalformedType);
    assert_eq!(error.position, 4);
}

#[test]
fn header_list_forms() {
    let empty = Response::parse(&[id("headers"), p("="), p("["), p("]")]).unwrap();
    assert!(empty.headers.is_empty());

    let trailing = Response::parse(&[
        id("headers"),
        p("="),
        p("["),
        p("("),
        s("a"),
        p(")"),
        p(","),
        p("]"),
    ])
    .unwrap();
    assert_eq!(trailing.headers.len(), 1);
    assert_eq!(trailing.headers[0].name, "a");

    let two = Response::parse(&[
        id("headers"),
        p("="),
        p("["),
        p("("),
        s("a"),
        p(")"),
        p(","),
        p("("),
        s("b"),
        p(","),
        p(")"),
        p("]"),
        p(","),
        id("status"),
        p("="),
        n("200"),
    ])
    .unwrap();
    assert_eq!(two.headers.len(), 2);
    assert_eq!(two.headers[1].name, "b");
    assert_eq!(two.status_code, 200);
}

#[test]
fn malformed_header_lists() {
    let brackets = "expected headers in brackets [..]";
    syntax_error(Response::parse(&[id("headers"), p("="), p("("), s("a"), p(")")]), 2, brackets);
    syntax_error(Response::parse(&[id("headers"), p("=")]), 2, brackets);
    syntax_error(Response::parse(&[id("headers"), p("="), p("[")]), 3, brackets);
    syntax_error(Response::parse(&[id("headers"), p("="), p("["), s("a"), p("]")]), 3, brackets);
    syntax_error(Response::parse(&[id("headers"), p("="), p("["), p(","), p("]")]), 3, brackets);
    syntax_error(
        Response::parse(&[
            id("headers"),
            p("="),
            p("["),
            p("("),
            s("a"),
            p(")"),
            p("("),
            s("b"),
            p(")"),
            p("]"),
        ]),
        6,
        brackets,
    );
    syntax_error(
        Response::parse(&[id("headers"), p("="), p("["), p("("), s("a"), p(")")]),
        6,
        brackets,
    );
    syntax_error(
        Response::parse(&[id("headers"), p("="), p("["), p("("), s("a"), s("b"), p(")"), p("]")]),
        5,
        "unexpected token",
    );
    syntax_error(
        Response::parse(&[id("headers"), p("="), p("["), p("("), p(")"), p("]")]),
        4,
        "unexpected attribute for Header name, expected LitStr",
    );
}

#[test]
fn header_forms() {
    let header = Header::parse(&[s("x"), id("description"), s("d")]).unwrap();
    assert_eq!(header.name, "x");
    assert_eq!(header.description.as_deref(), Some("d"));

    let header = Header::parse(&[s("x"), p(",")]).unwrap();
    assert!(header.value_type.is_none());
    assert!(header.description.is_none());

    let header =
        Header::parse(&[s("x"), p("="), p("["), id("u8"), p("]"), id("description"), p("="), s("d")])
            .unwrap();
    assert_eq!(header.value_type, Some(TypeReference { is_array: true, name: "u8".to_string() }));
    assert_eq!(header.description.as_deref(), Some("d"));

    let (header, next) =
        Header::parse_at(&[p("("), s("x"), p("="), id("u8"), p(")")], 1).unwrap();
    assert_eq!(header.name, "x");
    assert_eq!(next, 4);
}

#[test]
fn malformed_headers() {
    let error = Header::parse(&[]).unwrap_err();
    assert_eq!(error.kind, ErrorKind::SyntaxError);
    assert_eq!(error.position, 0);
    assert_eq!(error.message, "unexpected attribute for Header name, expected LitStr");

    let error = Header::parse(&[id("x")]).unwrap_err();
    assert_eq!(error.kind, ErrorKind::SyntaxError);
    assert_eq!(error.position, 0);

    let error = Header::parse(&[s("x"), p("="), n("1")]).unwrap_err();
    assert_eq!(error.kind, ErrorKind::MalformedType);
    assert_eq!(error.position, 2);

    let error = Header::parse(&[s("x"), p(","), id("description"), p("="), id("d")]).unwrap_err();
    assert_eq!(error.kind, ErrorKind::SyntaxError);
    assert_eq!(error.position, 4);
    assert_eq!(error.message, "expected string literal");

    let error = Header::parse(&[s("x"), p(","), id("description")]).unwrap_err();
    assert_eq!(error.kind, ErrorKind::SyntaxError);
    assert_eq!(error.position, 3);

    let error = Header::parse(&[s("x"), p(","), p(",")]).unwrap_err();
    assert_eq!(error.kind, ErrorKind::SyntaxError);
    assert_eq!(error.position, 2);
    assert_eq!(error.message, "unexpected token");

    let error =
        Header::parse(&[s("x"), id("description"), s("d"), id("description"), s("e")]).unwrap_err();
    assert_eq!(error.kind, ErrorKind::SyntaxError);
    assert_eq!(error.position, 3);
    assert_eq!(error.message, "unexpected token");
}

#[test]
fn first_error_from_the_left_wins() {
    let error = Response::parse(&[
        id("status"),
        p("="),
        s("two hundred"),
        p(","),
        id("colour"),
        p("="),
        s("red"),
    ])
    .unwrap_err();
    assert_eq!(error.kind, ErrorKind::SyntaxError);
    assert_eq!(error.position, 2);
}
