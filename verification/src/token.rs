//! The tokens that an entry is read from.

use vstd::prelude::*;
use vstd::string::StringExecFns;
use crate::literal::decode_literal;
use crate::literal::opens_literal;
use crate::literal::starts_literal;

verus! {

/// What sort of token a [`Token`] is.
#[derive(Clone, Copy, Debug, PartialEq, Eq, Structural)]
pub enum TokenKind {
    /// A bare identifier; the token's text is its name.
    Ident,
    /// A string literal; the token's text is the string that it denotes.
    Str,
    /// An integer literal; the token's text is its digits in base ten.
    Int,
    /// The sign `=`.
    Equals,
    /// The separator `,`.
    Comma,
    /// The bracket `(`.
    OpenParen,
    /// The bracket `)`.
    CloseParen,
    /// The bracket `[`.
    OpenBracket,
    /// The bracket `]`.
    CloseBracket,
    /// Any other token; the text is the token as it was written.
    Other,
}

/// One token of an entry. A token's position is its index in the sequence
/// that holds it.
#[derive(Clone, Debug, PartialEq, Eq)]
pub struct Token {
    pub kind: TokenKind,
    pub text: String,
}

/// The mathematical value of a [`Token`].
pub struct TokenView {
    pub kind: TokenKind,
    pub text: Seq<char>,
}

impl View for Token {
    type V = TokenView;

    open spec fn view(&self) -> TokenView {
        TokenView { kind: self.kind, text: self.text@ }
    }
}

/// The values of a sequence of tokens, in order.
pub open spec fn views(tokens: Seq<Token>) -> Seq<TokenView> {
    tokens.map_values(|t: Token| t@)
}

/// Whether `ts` has a token at `at` and that token is of kind `kind`.
pub open spec fn has_kind(ts: Seq<TokenView>, at: int, kind: TokenKind) -> bool {
    0 <= at < ts.len() && ts[at].kind == kind
}

/// The kind of the punctuation written as `sign`.
pub open spec fn punct_kind(sign: Seq<char>) -> TokenKind {
    if sign == "="@ {
        TokenKind::Equals
    } else if sign == ","@ {
        TokenKind::Comma
    } else if sign == "("@ {
        TokenKind::OpenParen
    } else if sign == ")"@ {
        TokenKind::CloseParen
    } else if sign == "["@ {
        TokenKind::OpenBracket
    } else if sign == "]"@ {
        TokenKind::CloseBracket
    } else {
        TokenKind::Other
    }
}

/// The value of a text that may be absent.
pub open spec fn text_view(t: Option<String>) -> Option<Seq<char>> {
    match t {
        Some(t) => Some(t@),
        None => None,
    }
}

/// The token for the literal written as `text`, given what the text
/// denotes as a string literal and its digits as an integer literal: a
/// string with its value, else an integer with its digits, else a token of
/// kind [`TokenKind::Other`] with the text unchanged.
pub open spec fn decoded_token(
    text: Seq<char>,
    string: Option<Seq<char>>,
    digits: Option<Seq<char>>,
) -> TokenView {
    match string {
        Some(value) => TokenView { kind: TokenKind::Str, text: value },
        None => match digits {
            Some(digits) => TokenView { kind: TokenKind::Int, text: digits },
            None => TokenView { kind: TokenKind::Other, text },
        },
    }
}

/// Whether `a` and `b` hold the same characters.
pub fn same_text(a: &String, b: &str) -> (r: bool)
    ensures
        r == (a@ == b@),
{
    *a == String::from_str(b)
}

impl Token {
    /// A token of kind `kind` with the text `text`.
    pub fn new(kind: TokenKind, text: &str) -> (t: Token)
        ensures
            t@ == (TokenView { kind, text: text@ }),
    {
        Token { kind, text: String::from_str(text) }
    }

    /// The identifier `name`.
    pub fn ident(name: &str) -> (t: Token)
        ensures
            t@ == (TokenView { kind: TokenKind::Ident, text: name@ }),
    {
        Token::new(TokenKind::Ident, name)
    }

    /// The punctuation written as `sign`: one of `=`, `,`, `(`, `)`, `[` and
    /// `]` gets its own kind, anything else is [`TokenKind::Other`].
    pub fn punct(sign: &str) -> (t: Token)
        ensures
            t@ == (TokenView { kind: punct_kind(sign@), text: sign@ }),
    {
        let text = String::from_str(sign);
        let kind = if same_text(&text, "=") {
            TokenKind::Equals
        } else if same_text(&text, ",") {
            TokenKind::Comma
        } else if same_text(&text, "(") {
            TokenKind::OpenParen
        } else if same_text(&text, ")") {
            TokenKind::CloseParen
        } else if same_text(&text, "[") {
            TokenKind::OpenBracket
        } else if same_text(&text, "]") {
            TokenKind::CloseBracket
        } else {
            TokenKind::Other
        };
        Token { kind, text }
    }

    /// The token for the literal written as `text`, given what the text
    /// denotes as a string literal and its digits as an integer literal.
    pub fn decoded(text: &str, string: Option<String>, digits: Option<String>) -> (t: Token)
        ensures
            t@ == decoded_token(text@, text_view(string), text_view(digits)),
    {
        match string {
            Some(value) => Token { kind: TokenKind::Str, text: value },
            None => match digits {
                Some(digits) => Token { kind: TokenKind::Int, text: digits },
                None => Token::new(TokenKind::Other, text),
            },
        }
    }

    /// The token for a literal as it stands in source text, quotes, escapes
    /// and suffix included: a string with the value that it denotes, an
    /// integer with its digits in base ten, or a token of kind
    /// [`TokenKind::Other`] with the text unchanged.
    ///
    /// The literal is decoded by `syn`, of which nothing is proved. So the
    /// contract says what holds whatever `syn` makes of the text: a text
    /// that does not open as a string or a number does is handed back
    /// unchanged, and any other token is one that [`Token::decoded`] gives
    /// for the text.
    pub fn literal(text: &str) -> (t: Token)
        ensures
            !opens_literal(text@) ==> t@ == (TokenView { kind: TokenKind::Other, text: text@ }),
            exists|string: Option<Seq<char>>, digits: Option<Seq<char>>|
                t@ == decoded_token(text@, string, digits),
    {
        if starts_literal(text) {
            let (string, digits) = decode_literal(text);
            let t = Token::decoded(text, string, digits);
            assert(t@ == decoded_token(text@, text_view(string), text_view(digits)));
            t
        } else {
            let t = Token::new(TokenKind::Other, text);
            assert(t@ == decoded_token(text@, None, None));
            t
        }
    }
}

/// Whether `tokens` has a token at `at` and that token is of kind `kind`.
pub fn kind_at(tokens: &[Token], at: usize, kind: TokenKind) -> (r: bool)
    ensures
        r == has_kind(views(tokens@), at as int, kind),
        r ==> at < usize::MAX,
{
    at < tokens.len() && tokens[at].kind == kind
}

} // verus!
