//! The parts of a declaration that are written in Rust's own syntax: types,
//! blocks, identifiers and attributes. Whether a text is one of them is asked
//! of `syn`; the answers are named here and believed, not proved.
//!
//! `syn` lexes a text with `proc_macro2`. The crate is built without the
//! `proc-macro` feature of `proc_macro2`, `quote` and `syn`, so that the
//! lexer is the one that `proc_macro2` holds itself, in every process: each
//! answer depends on the text alone.

use vstd::prelude::*;
use crate::lexer::stream_tokens;
use crate::token::Tok;

verus! {

/// Whether `syn` reads the whole of `text` as one Rust type.
pub uninterp spec fn is_type_text(text: Seq<char>) -> bool;

/// Whether `syn` reads the whole of `text` as one block: statements in braces.
pub uninterp spec fn is_block_text(text: Seq<char>) -> bool;

/// Whether `syn` reads the whole of `text` as one identifier that is no
/// keyword.
pub uninterp spec fn is_ident_text(text: Seq<char>) -> bool;

/// Whether `syn` reads the whole of `text` as a run of outer attributes,
/// each of the form `#[path ...]`.
pub uninterp spec fn is_attributes_text(text: Seq<char>) -> bool;

/// Where `syn` reads the whole of `text` as a type that is a path
/// (`syn::Type::Path`): the tokens of the path before the name of its last
/// segment, that name, and the tokens of the last segment's arguments. `None`
/// where `syn` reads no type or a type of another kind.
pub uninterp spec fn path_parts(text: Seq<char>) -> Option<(Seq<Tok>, Seq<char>, Seq<Tok>)>;

/// Calls `syn::parse_str` for `syn::Type`. It lexes the text and succeeds
/// only if a type was read and no token is left over. The contract says no
/// more than that the answer is the one named [`is_type_text`].
#[verifier::external_body]
pub(crate) fn parses_as_type(text: &str) -> (ok: bool)
    ensures
        ok == is_type_text(text@),
{
    syn::parse_str::<syn::Type>(text).is_ok()
}

/// Calls `syn::parse_str` for `syn::Block`. It lexes the text and succeeds
/// only if a braced block of statements was read and no token is left over.
/// The contract says no more than that the answer is the one named
/// [`is_block_text`].
#[verifier::external_body]
pub(crate) fn parses_as_block(text: &str) -> (ok: bool)
    ensures
        ok == is_block_text(text@),
{
    syn::parse_str::<syn::Block>(text).is_ok()
}

/// Calls `syn::parse_str` for `syn::Ident`. It lexes the text and succeeds
/// only if the text is a single identifier other than `_` and the keywords.
/// The contract says no more than that the answer is the one named
/// [`is_ident_text`].
#[verifier::external_body]
pub(crate) fn parses_as_ident(text: &str) -> (ok: bool)
    ensures
        ok == is_ident_text(text@),
{
    syn::parse_str::<syn::Ident>(text).is_ok()
}

/// Calls `syn::Attribute::parse_outer` on the whole text, through
/// `syn::parse::Parser::parse_str`. It succeeds only if the text is made of
/// outer attributes and nothing else. The contract says no more than that the
/// answer is the one named [`is_attributes_text`].
#[verifier::external_body]
pub(crate) fn parses_as_attributes(text: &str) -> (ok: bool)
    ensures
        ok == is_attributes_text(text@),
{
    syn::parse::Parser::parse_str(syn::Attribute::parse_outer, text).is_ok()
}

/// Calls `syn::parse_str` for `syn::Type` and, where the type is a
/// `syn::Type::Path`, takes the last segment off its path with
/// `Punctuated::pop` and prints the rest of the path and the segment's
/// arguments with `ToTokens::to_token_stream`. The contract says no more than
/// that the three parts are those named [`path_parts`], the two streams taken
/// by what they hold.
#[verifier::external_body]
pub(crate) fn split_type_path(text: &str) -> (r: Option<
    (proc_macro2::TokenStream, String, proc_macro2::TokenStream),
>)
    ensures
        match r {
            Some((prefix, name, arguments)) => path_parts(text@) == Some(
                (stream_tokens(prefix), name@, stream_tokens(arguments)),
            ),
            None => path_parts(text@) is None,
        },
{
    let mut path = match syn::parse_str::<syn::Type>(text) {
        Ok(syn::Type::Path(found)) => found.path,
        _ => return None,
    };
    let last = path.segments.pop()?.into_value();
    let prefix = quote::ToTokens::to_token_stream(&path);
    let arguments = quote::ToTokens::to_token_stream(&last.arguments);
    Some((prefix, last.ident.to_string(), arguments))
}

} // verus!
