//! Reading literals from their source text.
//!
//! Rust's rules for literals (escapes in strings, raw strings, digits in
//! other bases, underscores, suffixes) are those of `proc_macro2` and `syn`,
//! which this module calls. Nothing is proved of what they decode a text
//! to, and nothing is claimed of it: [`crate::token::Token::decoded`] takes
//! what they return and is verified for every value of it.

use vstd::prelude::*;
use vstd::string::StrSliceExecFns;

verus! {

/// Whether `text` opens as a string literal does, with `"` or with the `r`
/// of a raw string, or as a number does, with a digit.
pub open spec fn opens_literal(text: Seq<char>) -> bool {
    text.len() > 0 && (text[0] == '"' || text[0] == 'r' || ('0' <= text[0] && text[0] <= '9'))
}

/// Whether `text` opens as a string literal or a number does.
pub fn starts_literal(text: &str) -> (r: bool)
    ensures
        r == opens_literal(text@),
{
    if text.unicode_len() == 0 {
        false
    } else {
        let first = text.get_char(0);
        first == '"' || first == 'r' || ('0' <= first && first <= '9')
    }
}

/// Lexes `text` with `proc_macro2::Literal::from_str` and classifies the
/// token with `syn::Lit::new`. For a string literal the first result is
/// what `syn::LitStr::value` decodes it to; for an integer literal the
/// second is what `syn::LitInt::base10_digits` gives. Whatever else the
/// text is, both are `None`.
///
/// Taken on trust, and all that is claimed: the two results are never both
/// present. Which text decodes to what is not stated, nor that one text
/// always decodes alike: `proc_macro2` lexes with its own lexer outside a
/// procedural macro and hands the text on to the compiler's inside one.
///
/// The text has to open with `"`, `r` or a digit. `proc_macro2`'s lexer
/// then accepts one well-formed string, integer or float literal and
/// nothing else, and these `syn` is able to classify and to decode; it
/// would panic on a token that it does not know, such as a C string.
#[verifier::external_body]
pub(crate) fn decode_literal(text: &str) -> (r: (Option<String>, Option<String>))
    requires
        opens_literal(text@),
    ensures
        !(r.0 is Some && r.1 is Some),
{
    match text.parse::<proc_macro2::Literal>() {
        Ok(token) => match syn::Lit::new(token) {
            syn::Lit::Str(lit) => (Some(lit.value()), None),
            syn::Lit::Int(lit) => (None, Some(lit.base10_digits().to_string())),
            _ => (None, None),
        },
        Err(_) => (None, None),
    }
}

} // verus!
