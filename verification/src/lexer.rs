//! From text to tokens.
//!
//! The lexer is that of `proc_macro2`. The crate is built without the
//! `proc-macro` feature of `proc_macro2`, so that the lexer is the one that
//! `proc_macro2` holds itself, in every process: what it reads from a text
//! depends on the text alone.

use vstd::prelude::*;
use proc_macro2::{Spacing, TokenTree};
use crate::token::{Delim, Token, Tok};
use crate::error::{error_at, ErrorKind, SyntaxError};

verus! {

/// `proc_macro2::TokenStream`: a sequence of token trees. Nothing is known
/// of a value of it but what [`stream_tokens`] names.
#[verifier::external_type_specification]
#[verifier::external_body]
pub struct ExTokenStream(proc_macro2::TokenStream);

/// `proc_macro2::Delimiter`, the bracket kind of a group of
/// `proc_macro2`; nothing is known of a value of it.
#[verifier::external_type_specification]
#[verifier::external_body]
pub struct ExDelimiter(proc_macro2::Delimiter);

/// What a token stream holds: its token trees in order, a word, a
/// punctuation character or a literal as one token, a group as its opening
/// token, what its own stream holds and its closing token.
pub uninterp spec fn stream_tokens(stream: proc_macro2::TokenStream) -> Seq<Tok>;

/// What the stream holds that `proc_macro2::TokenStream::from_str` reads
/// from a text; `None` where it rejects the text.
pub uninterp spec fn lexed(text: Seq<char>) -> Option<Seq<Tok>>;

/// Tells the four variants of `proc_macro2::Delimiter` apart and gives the
/// bracket kind of the same name; `None` there is `Invisible` here. Nothing
/// is claimed of it.
#[verifier::external_body]
fn delimiter_of(d: proc_macro2::Delimiter) -> Delim {
    match d {
        proc_macro2::Delimiter::Parenthesis => Delim::Parenthesis,
        proc_macro2::Delimiter::Brace => Delim::Brace,
        proc_macro2::Delimiter::Bracket => Delim::Bracket,
        proc_macro2::Delimiter::None => Delim::Invisible,
    }
}

/// Hands out what a `proc_macro2::TokenStream` holds, by its iterator and
/// by `Group::delimiter`, `Group::stream`, `Ident::to_string`,
/// `Punct::as_char`, `Punct::spacing` and `Literal::to_string`. The
/// contract says no more than that these are the tokens named
/// [`stream_tokens`].
#[verifier::external_body]
pub(crate) fn stream_to_tokens(stream: proc_macro2::TokenStream) -> (out: Vec<Token>)
    ensures
        out.deep_view() == stream_tokens(stream),
{
    let mut out = Vec::new();
    for tree in stream {
        match tree {
            TokenTree::Group(g) => {
                out.push(Token::Open(delimiter_of(g.delimiter())));
                out.extend(stream_to_tokens(g.stream()));
                out.push(Token::Close(delimiter_of(g.delimiter())));
            },
            TokenTree::Ident(i) => out.push(Token::Ident(i.to_string())),
            TokenTree::Punct(p) => out.push(Token::Punct(p.as_char(), p.spacing() == Spacing::Joint)),
            TokenTree::Literal(l) => out.push(Token::Literal(l.to_string())),
        }
    }
    out
}

/// Calls `proc_macro2::TokenStream::from_str`. The contract says no more
/// than that what the stream holds is what [`lexed`] names, and that no
/// stream comes where `lexed` names none: the lexer's rules fill pages.
#[verifier::external_body]
fn lex_stream(text: &str) -> (r: Option<proc_macro2::TokenStream>)
    ensures
        match r {
            Some(stream) => lexed(text@) == Some(stream_tokens(stream)),
            None => lexed(text@) is None,
        },
{
    <proc_macro2::TokenStream as core::str::FromStr>::from_str(text).ok()
}

/// What [`tokenize`] returns for a text.
pub open spec fn tokenize_spec(text: Seq<char>) -> Result<Seq<Tok>, SyntaxError> {
    match lexed(text) {
        Some(tokens) => Ok(tokens),
        None => Err(error_at(ErrorKind::NotTokens, 0)),
    }
}

/// The tokens of a text, or the error that says that the text is no
/// sequence of Rust tokens.
pub fn tokenize(text: &str) -> (r: Result<Vec<Token>, SyntaxError>)
    ensures
        match r {
            Ok(tokens) => tokenize_spec(text@) == Ok::<Seq<Tok>, SyntaxError>(tokens.deep_view()),
            Err(e) => tokenize_spec(text@) == Err::<Seq<Tok>, SyntaxError>(e),
        },
{
    match lex_stream(text) {
        Some(stream) => Ok(stream_to_tokens(stream)),
        None => Err(SyntaxError { kind: ErrorKind::NotTokens, position: 0 }),
    }
}

} // verus!
