//! The response attributes of an operation: a parser that reads
//! `(status = 200, description = "text", body = [Type], headers = [..])`
//! from tokens, and an emitter that turns the responses into the document
//! that describes them.
//!
//! Tokens come in as [`token::Token`]s. [`Response::parse`] and
//! [`header::Header::parse`] read them by the grammar that
//! [`response::spec_parse_response`] and [`header::spec_parse_header`]
//! define; [`Responses::to_fragment`] emits what
//! [`fragment::spec_responses_fragment`] defines. [`laws`] holds what
//! follows for every entry.

pub mod decimal;
pub mod error;
pub mod fragment;
pub mod header;
pub mod laws;
pub mod literal;
pub mod resolver;
pub mod response;
pub mod token;
pub mod type_ref;

pub use error::ErrorKind;
pub use error::ParseError;
pub use fragment::Responses;
pub use header::Header;
pub use resolver::TypeResolver;
pub use response::Response;
pub use token::Token;
pub use token::TokenKind;
pub use type_ref::TypeReference;
