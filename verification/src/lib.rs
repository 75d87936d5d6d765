//! Generator of command-line parsing and dispatch code.
//!
//! A declaration names a parser, the options that all its subcommands share
//! and the subcommands themselves, each with the block that handles it or
//! with the type of a nested declaration:
//!
//! ```text
//! Cli { num: usize };
//! trait_args(verbose: bool);
//! commands {
//!     Cmd1 { name: String } => { greet(name, verbose) },
//!     Foo(foo::Foo),
//! };
//! ```
//!
//! The library reads such a declaration as a sequence of tokens, builds a
//! syntax tree from it and emits five pieces of code: an alias, the parser
//! structure, the dispatch trait, the subcommand enumeration and the
//! implementation of the trait for the enumeration.

use vstd::prelude::*;
use crate::ast::ClapArgsWithSubs;
use crate::error::SyntaxError;
use crate::grammar::parse_spec;
use crate::lexer::{tokenize, tokenize_spec};
use crate::token::{Tok, Token, render, render_spec};

pub mod token;
pub mod error;
pub mod syntax;
pub mod lexer;
pub mod ast;
pub mod grammar;
pub mod parser;
pub mod layout;
pub mod emitter;
pub mod laws;
pub mod written;

verus! {

/// The tokens that are emitted for the declaration that `tokens` is, or the
/// error that says why it is none.
pub open spec fn expand_spec(tokens: Seq<Tok>) -> Result<Seq<Tok>, SyntaxError> {
    match parse_spec(tokens) {
        Err(e) => Err(e),
        Ok(declaration) => Ok(declaration.to_tokens()),
    }
}

/// The text of the code that is emitted for the declaration that `text`
/// is, or the error that says why it is none.
pub open spec fn transform_spec(text: Seq<char>) -> Result<Seq<char>, SyntaxError> {
    match tokenize_spec(text) {
        Err(e) => Err(e),
        Ok(tokens) => match expand_spec(tokens) {
            Err(e) => Err(e),
            Ok(code) => Ok(render_spec(code)),
        },
    }
}

/// Whether `r` is an outcome that the entry point may give for `text`:
/// the code of [`transform_spec`], or its error.
pub open spec fn is_transform_of(text: Seq<char>, r: Result<String, SyntaxError>) -> bool {
    match r {
        Ok(code) => transform_spec(text) == Ok::<Seq<char>, SyntaxError>(code@),
        Err(e) => transform_spec(text) == Err::<Seq<char>, SyntaxError>(e),
    }
}

/// Reads a declaration and emits its code, tokens to tokens.
pub fn expand(tokens: &Vec<Token>) -> (r: Result<Vec<Token>, SyntaxError>)
    ensures
        match r {
            Ok(code) => expand_spec(tokens.deep_view()) == Ok::<Seq<Tok>, SyntaxError>(
                code.deep_view(),
            ),
            Err(e) => expand_spec(tokens.deep_view()) == Err::<Seq<Tok>, SyntaxError>(e),
        },
{
    match ClapArgsWithSubs::parse(tokens) {
        Err(e) => Err(e),
        Ok(declaration) => Ok(declaration.to_tokens()),
    }
}

/// Reads a declaration and emits its code, text to text. Nothing is emitted
/// for a text that is no declaration.
pub fn clap_args_with_subcommands(input: &str) -> (r: Result<String, SyntaxError>)
    ensures
        is_transform_of(input@, r),
{
    let tokens = match tokenize(input) {
        Ok(tokens) => tokens,
        Err(e) => {
            return Err(e);
        },
    };
    match expand(&tokens) {
        Err(e) => Err(e),
        Ok(code) => Ok(render(&code)),
    }
}

} // verus!
