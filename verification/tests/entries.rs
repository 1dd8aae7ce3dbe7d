//! Whole entries, written as text and lexed with `proc_macro2`.

use proc_macro2::Delimiter;
use proc_macro2::TokenStream;
use proc_macro2::TokenTree;
use std::str::FromStr;
use utoipa_gen::error::ErrorKind;
use utoipa_gen::fragment::entry_fragment;
use utoipa_gen::fragment::Responses;
use utoipa_gen::fragment::ResponsesFragment;
use utoipa_gen::header::Header;
use utoipa_gen::resolver::TypeClass;
use utoipa_gen::resolver::TypeResolver;
use utoipa_gen::response::Response;
use utoipa_gen::token::Token;

fn flatten(stream: TokenStream, out: &mut Vec<Token>) {
    for tree in stream {
        match tree {
            TokenTree::Ident(ident) => out.push(Token::ident(&ident.to_string())),
            TokenTree::Punct(punct) => out.push(Token::punct(&punct.as_char().to_string())),
            TokenTree::Literal(literal) => out.push(Token::literal(&literal.to_string())),
            TokenTree::Group(group) => {
                let (open, close) = match group.delimiter() {
                    Delimiter::Parenthesis => ("(", ")"),
                    Delimiter::Bracket => ("[", "]"),
                    Delimiter::Brace => ("{", "}"),
                    Delimiter::None => ("", ""),
                };
                if !open.is_empty() {
                    out.push(Token::punct(open));
                }
                flatten(group.stream(), out);
                if !close.is_empty() {
                    out.push(Token::punct(close));
                }
            }
        }
    }
}

fn lex(text: &str) -> Vec<Token> {
    let mut out = Vec::new();
    flatten(TokenStream::from_str(text).unwrap(), &mut out);
    out
}

fn lex_loosely(word: &str) -> Vec<Token> {
    let mut tokens = Vec::new();
    let mut rest = word;
    while !rest.is_empty() {
        let first = rest.chars().next().unwrap();
        if "=,()[]".contains(first) {
            tokens.push(Token::punct(&first.to_string()));
            rest = &rest[first.len_utf8()..];
        } else {
            let end = rest.find(|c| "=,()[]".contains(c)).unwrap_or(rest.len());
            let piece = &rest[..end];
            if piece.starts_with('"') || piece.starts_with(|c: char| c.is_ascii_digit()) {
                tokens.push(Token::literal(piece));
            } else {
                tokens.push(Token::ident(piece));
            }
            rest = &rest[end..];
        }
    }
    tokens
}

fn resolver() -> TypeResolver {
    TypeResolver::new(vec!["i32".to_string(), "String".to_string(), "bool".to_string()])
}

fn emit(entries: &[&str]) -> ResponsesFragment {
    let responses: Vec<Response> =
        entries.iter().map(|entry| Response::parse(&lex(entry)).unwrap()).collect();
    Responses(&responses).to_fragment(&resolver())
}

#[test]
fn minimal_entry() {
    let document = emit(&[r#"status = 200, description = "success response""#]);
    assert_eq!(document.responses.len(), 1);
    let response = &document.responses[0];
    assert_eq!(response.status, "200");
    assert_eq!(response.description, "success response");
    assert!(response.content.is_none());
    assert!(response.headers.is_empty());
}

#[test]
fn array_of_composite_body_is_json() {
    let document = emit(&[r#"status = 200, description = "ok", body = [Foo]"#]);
    let content = document.responses[0].content.as_ref().unwrap();
    assert_eq!(content.content_type, "application/json");
    assert_eq!(content.schema.name, "Foo");
    assert!(content.schema.is_array);
    assert_eq!(content.schema.class, TypeClass::Composite);
}

#[test]
fn primitive_body_is_plain_text() {
    let document = emit(&[r#"status = 200, description = "ok", body = i32"#]);
    let content = document.responses[0].content.as_ref().unwrap();
    assert_eq!(content.content_type, "text/plain");
    assert_eq!(content.schema.name, "i32");
    assert!(!content.schema.is_array);
    assert_eq!(content.schema.class, TypeClass::Primitive);
}

#[test]
fn array_of_primitive_body_is_plain_text() {
    let document = emit(&[r#"status = 200, body = [String]"#]);
    let content = document.responses[0].content.as_ref().unwrap();
    assert_eq!(content.content_type, "text/plain");
    assert!(content.schema.is_array);
}

#[test]
fn explicit_content_type_overrides_inference() {
    let document = emit(&[
        r#"status = 200, description = "ok", body = i32, content_type = "text/xml""#,
        r#"status = 201, description = "ok", content_type = "text/xml", body = [Foo]"#,
    ]);
    assert_eq!(document.responses[0].content.as_ref().unwrap().content_type, "text/xml");
    assert_eq!(document.responses[1].content.as_ref().unwrap().content_type, "text/xml");
    assert_eq!(document.responses[1].content.as_ref().unwrap().schema.class, TypeClass::Composite);
}

#[test]
fn content_type_without_body_gives_no_content() {
    let document = emit(&[r#"status = 204, content_type = "text/xml""#]);
    assert!(document.responses[0].content.is_none());
}

#[test]
fn header_with_name_only() {
    let header = Header::parse(&lex(r#""x-token""#)).unwrap();
    assert_eq!(header.name, "x-token");
    assert!(header.value_type.is_none());
    assert!(header.description.is_none());

    let document = emit(&[r#"status = 200, headers = [("x-token")]"#]);
    let emitted = &document.responses[0].headers[0];
    assert_eq!(emitted.name, "x-token");
    assert!(emitted.schema.is_none());
    assert!(emitted.description.is_none());
}

#[test]
fn header_with_type_and_description() {
    let header = Header::parse(&lex(r#""x-token" = String, description = "desc""#)).unwrap();
    assert_eq!(header.name, "x-token");
    let value_type = header.value_type.unwrap();
    assert_eq!(value_type.name, "String");
    assert!(!value_type.is_array);
    assert_eq!(header.description.unwrap(), "desc");
}

#[test]
fn headers_keep_declaration_order() {
    let document = emit(&[
        r#"status = 200, description = "ok",
           headers = [
               ("xrfs-token" = String, description = "New csrf token sent back in response header"),
               ("another-header"),
               ("ids" = [u64]),
           ]"#,
    ]);
    let headers = &document.responses[0].headers;
    assert_eq!(headers.len(), 3);
    assert_eq!(headers[0].name, "xrfs-token");
    assert_eq!(headers[0].schema.as_ref().unwrap().name, "String");
    assert_eq!(headers[0].schema.as_ref().unwrap().class, TypeClass::Primitive);
    assert_eq!(
        headers[0].description.as_deref(),
        Some("New csrf token sent back in response header")
    );
    assert_eq!(headers[1].name, "another-header");
    assert!(headers[1].schema.is_none());
    assert_eq!(headers[2].name, "ids");
    assert!(headers[2].schema.as_ref().unwrap().is_array);
    assert_eq!(headers[2].schema.as_ref().unwrap().class, TypeClass::Composite);
}

#[test]
fn responses_keep_their_order() {
    let document = emit(&[
        r#"status = 404, description = "foo not found", body = NotFoundError"#,
        r#"status = 200, description = "success response", body = [Foo]"#,
        r#"status = 401, description = "unauthorized to access", body = UnautorizedError"#,
    ]);
    let keys: Vec<&str> = document.responses.iter().map(|r| r.status.as_str()).collect();
    assert_eq!(keys, vec!["404", "200", "401"]);
    assert_eq!(document.responses[0].description, "foo not found");
}

#[test]
fn all_fields_at_once() {
    let response = Response::parse(&lex(
        r#"status = 200, description = "success response", body = [Foo], content_type = "text/xml",
           headers = [("xrfs-token" = String, description = "New csrf token sent back in response header")]"#,
    ))
    .unwrap();
    assert_eq!(response.status_code, 200);
    assert_eq!(response.description, "success response");
    assert_eq!(response.body.as_ref().unwrap().name, "Foo");
    assert!(response.body.as_ref().unwrap().is_array);
    assert_eq!(response.content_type.as_deref(), Some("text/xml"));
    assert_eq!(response.headers.len(), 1);
}

#[test]
fn same_input_gives_the_same_document() {
    let entries = [
        r#"status = 200, description = "ok", body = [Foo], headers = [("a"), ("b" = i32)]"#,
        r#"status = 500, description = "broken", body = String"#,
    ];
    let first = emit(&entries);
    let second = emit(&entries);
    assert_eq!(first, second);
    assert_eq!(format!("{:?}", first), format!("{:?}", second));
}

#[test]
fn unknown_response_field() {
    let error = Response::parse(&lex("foo = 1")).unwrap_err();
    assert_eq!(error.kind, ErrorKind::UnknownField);
    assert_eq!(error.position, 0);
    assert!(error.message.contains("foo"));
    assert!(error.message.contains("status, description, body, content_type, headers"));
    assert_eq!(
        error.message,
        "unexpected attribute: foo, \n                    expected values: status, description, body, content_type, headers"
    );
}

#[test]
fn unknown_field_after_a_good_one() {
    let error = Response::parse(&lex(r#"status = 200, colour = "red""#)).unwrap_err();
    assert_eq!(error.kind, ErrorKind::UnknownField);
    assert_eq!(error.position, 4);
    assert!(error.message.contains("colour"));
}

#[test]
fn unknown_header_continuation() {
    let error = Header::parse(&lex(r#""x", bogus = "y""#)).unwrap_err();
    assert_eq!(error.kind, ErrorKind::UnknownField);
    assert_eq!(error.position, 2);
    assert_eq!(error.message, "unexpected attribute: bogus, expected: description");

    let nested = Response::parse(&lex(r#"status = 200, headers = [("x", bogus = "y")]"#))
        .unwrap_err();
    assert_eq!(nested.kind, ErrorKind::UnknownField);
    assert_eq!(nested.position, 10);
    assert_eq!(nested.message, "unexpected attribute: bogus, expected: description");
}

#[test]
fn missing_equals_after_a_key() {
    let error = Response::parse(&lex("status 200")).unwrap_err();
    assert_eq!(error.kind, ErrorKind::SyntaxError);
    assert_eq!(error.position, 1);
    assert!(error.message.contains("(=)"));

    let at_end = Response::parse(&lex(r#"status = 200, description"#)).unwrap_err();
    assert_eq!(at_end.kind, ErrorKind::SyntaxError);
    assert_eq!(at_end.position, 5);
    assert!(at_end.message.contains("(=)"));
}

#[test]
fn escapes_in_a_description_are_decoded() {
    let response =
        Response::parse(&lex(r#"status = 200, description = "line\n\"quoted\" \u{e9}""#)).unwrap();
    assert_eq!(response.description, "line\n\"quoted\" \u{e9}");
}

#[test]
fn raw_string_description() {
    let response =
        Response::parse(&lex(r##"status = 200, description = r#"a "raw" one"#"##)).unwrap();
    assert_eq!(response.description, "a \"raw\" one");
}

#[test]
fn status_in_another_base_or_with_a_suffix() {
    assert_eq!(Response::parse(&lex("status = 0xC8")).unwrap().status_code, 200);
    assert_eq!(Response::parse(&lex("status = 4_04")).unwrap().status_code, 404);
    assert_eq!(Response::parse(&lex("status = 201u16")).unwrap().status_code, 201);
}

#[test]
fn entry_fragment_parses_and_emits() {
    let tokens = lex(r#"status = 201, description = "made", body = Item, headers = [("location")]"#);
    let fragment = entry_fragment(&tokens, &resolver()).unwrap();
    assert_eq!(fragment, Response::parse(&tokens).unwrap().to_fragment(&resolver()));
    assert_eq!(fragment.status, "201");
    assert_eq!(fragment.description, "made");
    assert_eq!(fragment.content.as_ref().unwrap().content_type, "application/json");
    assert_eq!(fragment.headers[0].name, "location");

    let broken = lex(r#"status = 201, description = made"#);
    assert_eq!(
        entry_fragment(&broken, &resolver()).unwrap_err(),
        Response::parse(&broken).unwrap_err()
    );
}

#[test]
fn only_the_named_types_matter_to_the_document() {
    let tokens = lex(r#"status = 200, body = [Foo], headers = [("a" = i32), ("b")]"#);
    let small = TypeResolver::new(vec!["i32".to_string()]);
    let large = TypeResolver::new(vec!["bool".to_string(), "i32".to_string(), "u8".to_string()]);
    assert_eq!(
        entry_fragment(&tokens, &small).unwrap(),
        entry_fragment(&tokens, &large).unwrap()
    );
}

#[test]
fn errors_point_into_the_entry() {
    for entry in [
        "",
        "status",
        "status =",
        "status = ,",
        "status = 200, ,",
        "body = [",
        "body = [Foo",
        "headers = [",
        "headers = [(",
        r#"headers = [("x""#,
        r#"headers = [("x" = "#,
        r#"headers = [("x", description"#,
        r#"headers = [("x", description ="#,
        r#"headers = [("x")"#,
        r#"headers = [("x"),"#,
        "foo",
        "description = 5",
    ] {
        let tokens: Vec<Token> = match TokenStream::from_str(entry) {
            Ok(_) => lex(entry),
            Err(_) => entry
                .split_whitespace()
                .flat_map(|word| lex_loosely(word))
                .collect(),
        };
        let error = Response::parse(&tokens).unwrap_err();
        assert!(error.position <= tokens.len(), "{:?}", entry);
        assert!(!error.message.is_empty());
    }
}
