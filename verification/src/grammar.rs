//! The grammar of a declaration, as functions on token sequences.
//!
//! ```text
//! declaration := parser trait_args? commands
//! parser      := attr* name "{" fields "}" ";"
//! trait_args  := "trait_args" "(" fields ")" ";"
//! commands    := "commands" "{" entry ("," entry)* ","? "}" ";"
//! fields      := (field ("," field)* ","?)?
//! field       := attr* name ":" type
//! entry       := attr* name shape? ("=>" block)?
//! shape       := "{" fields "}" | "(" type ")"
//! attr        := "#" "[" ... "]"
//! ```
//!
//! A name is one word that `syn` accepts as an identifier. A type, a block
//! and the inside of an attribute are Rust's own syntax: the grammar finds
//! where they start and end and asks `syn` whether the tokens between are
//! what they should be. A type in a list of fields ends before the first
//! comma outside all brackets at which `syn` accepts what came before.
//!
//! Every function reads the tokens of `s` from `pos` up to `end`, the end of
//! the enclosing group, and is meant for `0 <= pos <= end <= s.len()`.

use vstd::prelude::*;
use crate::token::{Delim, Tok, is_punct, is_word, render_spec};
use crate::error::{error_at, ErrorKind, SyntaxError};
use crate::syntax::{is_attributes_text, is_block_text, is_ident_text, is_type_text};
use crate::ast::{
    ClapArgsWithSubsView, CmdHandlerView, CommandsView, FieldView, FieldsView, ParserDefView,
    TraitArgsView, Variant2View,
};

verus! {

/// The index of the first closing token from `j` on that is not matched by
/// an opening token from `j` on, where `depth` groups are open at `j`.
pub open spec fn scan_close(s: Seq<Tok>, j: int, end: int, depth: nat) -> Option<int>
    decreases end - j,
{
    if j >= end {
        None
    } else {
        match s[j] {
            Tok::Open(_) => scan_close(s, j + 1, end, depth + 1),
            Tok::Close(_) => if depth == 0 {
                Some(j)
            } else {
                scan_close(s, j + 1, end, (depth - 1) as nat)
            },
            _ => scan_close(s, j + 1, end, depth),
        }
    }
}

/// The index of the token that closes the group opened at `open`, if it lies
/// before `end` and is a bracket of the kind `d`.
pub open spec fn group_close(s: Seq<Tok>, open: int, end: int, d: Delim) -> Option<int> {
    match scan_close(s, open + 1, end, 0) {
        Some(c) => if s[c] == Tok::Close(d) {
            Some(c)
        } else {
            None
        },
        None => None,
    }
}

/// The index of the first comma from `j` on that stands outside all groups
/// opened from `j` on, or `end` if there is none; `depth` groups are open at
/// `j`.
pub open spec fn next_comma(s: Seq<Tok>, j: int, end: int, depth: nat) -> int
    decreases end - j,
{
    if j >= end {
        end
    } else {
        match s[j] {
            Tok::Open(_) => next_comma(s, j + 1, end, depth + 1),
            Tok::Close(_) => next_comma(
                s,
                j + 1,
                end,
                if depth > 0 {
                    (depth - 1) as nat
                } else {
                    0
                },
            ),
            _ => if depth == 0 && is_punct(s[j], ',') {
                j
            } else {
                next_comma(s, j + 1, end, depth)
            },
        }
    }
}

/// The name at `pos`: a word that `syn` accepts as an identifier.
pub open spec fn name_at(s: Seq<Tok>, pos: int, end: int) -> Option<Seq<char>> {
    if pos < end {
        match s[pos] {
            Tok::Ident(name) => if is_ident_text(name) {
                Some(name)
            } else {
                None
            },
            _ => None,
        }
    } else {
        None
    }
}

/// The attributes from `pos` on, added to `acc`, and the index of the token
/// after them.
pub open spec fn parse_attrs_spec(s: Seq<Tok>, pos: int, end: int, acc: Seq<Seq<Tok>>) -> Result<
    (Seq<Seq<Tok>>, int),
    SyntaxError,
>
    decreases end - pos,
{
    if pos < end && is_punct(s[pos], '#') {
        if pos + 1 < end && s[pos + 1] == Tok::Open(Delim::Bracket) {
            match group_close(s, pos + 1, end, Delim::Bracket) {
                None => Err(error_at(ErrorKind::UnclosedGroup, pos + 1)),
                Some(c) => {
                    let attr = s.subrange(pos, c + 1);
                    if is_attributes_text(render_spec(attr)) {
                        proof {
                            lemma_scan_close_bounds(s, pos + 2, end, 0);
                        }
                        parse_attrs_spec(s, c + 1, end, acc.push(attr))
                    } else {
                        Err(error_at(ErrorKind::BadAttribute, pos))
                    }
                },
            }
        } else {
            Err(error_at(ErrorKind::ExpectedBracket, pos + 1))
        }
    } else {
        Ok((acc, pos))
    }
}

/// The end of the type that starts at `start`: the first comma outside all
/// groups, or `end`, from `from` on, such that `syn` accepts the tokens from
/// `start` up to it as a type.
pub open spec fn type_end(s: Seq<Tok>, start: int, from: int, end: int) -> Option<int>
    decreases end - from,
{
    let stop = next_comma(s, from, end, 0);
    if start < stop && is_type_text(render_spec(s.subrange(start, stop))) {
        Some(stop)
    } else if stop >= end {
        None
    } else {
        proof {
            lemma_next_comma_bounds(s, from, end, 0);
        }
        type_end(s, start, stop + 1, end)
    }
}

/// The field at `pos` and the index of the token after it.
pub open spec fn parse_field_spec(s: Seq<Tok>, pos: int, end: int) -> Result<
    (FieldView, int),
    SyntaxError,
> {
    match parse_attrs_spec(s, pos, end, Seq::empty()) {
        Err(e) => Err(e),
        Ok((attrs, p)) => match name_at(s, p, end) {
            None => Err(error_at(ErrorKind::ExpectedIdent, p)),
            Some(ident) => if !(p + 1 < end && is_punct(s[p + 1], ':')) {
                Err(error_at(ErrorKind::ExpectedColon, p + 1))
            } else {
                match type_end(s, p + 2, p + 2, end) {
                    None => Err(error_at(ErrorKind::ExpectedType, p + 2)),
                    Some(e) => Ok((FieldView { attrs, ident, ty: s.subrange(p + 2, e) }, e)),
                }
            },
        },
    }
}

/// The fields from `pos` up to `end`, added to `acc`. Commas part them, and
/// one may follow the last.
pub open spec fn parse_field_list_spec(s: Seq<Tok>, pos: int, end: int, acc: Seq<FieldView>) -> Result<
    Seq<FieldView>,
    SyntaxError,
>
    decreases end - pos,
{
    if pos >= end {
        Ok(acc)
    } else {
        match parse_field_spec(s, pos, end) {
            Err(e) => Err(e),
            Ok((field, next)) => if next >= end {
                Ok(acc.push(field))
            } else {
                proof {
                    lemma_field_bounds(s, pos, end);
                }
                parse_field_list_spec(s, next + 1, end, acc.push(field))
            },
        }
    }
}

/// What a variant carries, read at `pos`, and the index of the token after
/// it.
pub open spec fn parse_fields_spec(s: Seq<Tok>, pos: int, end: int) -> Result<
    (FieldsView, int),
    SyntaxError,
> {
    if pos < end && s[pos] == Tok::Open(Delim::Brace) {
        match group_close(s, pos, end, Delim::Brace) {
            None => Err(error_at(ErrorKind::UnclosedGroup, pos)),
            Some(c) => match parse_field_list_spec(s, pos + 1, c, Seq::empty()) {
                Err(e) => Err(e),
                Ok(fields) => Ok((FieldsView::Named(fields), c + 1)),
            },
        }
    } else if pos < end && s[pos] == Tok::Open(Delim::Parenthesis) {
        match group_close(s, pos, end, Delim::Parenthesis) {
            None => Err(error_at(ErrorKind::UnclosedGroup, pos)),
            Some(c) => {
                let ty = s.subrange(pos + 1, c);
                if pos + 1 < c && is_type_text(render_spec(ty)) {
                    Ok((FieldsView::Unnamed(ty), c + 1))
                } else {
                    Err(error_at(ErrorKind::ExpectedType, pos + 1))
                }
            },
        }
    } else {
        Ok((FieldsView::Unit, pos))
    }
}

/// Whether `=>` stands at `pos`.
pub open spec fn arrow_at(s: Seq<Tok>, pos: int, end: int) -> bool {
    pos + 1 < end && s[pos] == Tok::Punct('=', true) && is_punct(s[pos + 1], '>')
}

/// The handler that follows the arrow at `pos`, and the index of the token
/// after it.
pub open spec fn parse_handler_spec(s: Seq<Tok>, pos: int, end: int) -> Result<
    (Seq<Tok>, int),
    SyntaxError,
> {
    if pos + 2 < end && s[pos + 2] == Tok::Open(Delim::Brace) {
        match group_close(s, pos + 2, end, Delim::Brace) {
            None => Err(error_at(ErrorKind::UnclosedGroup, pos + 2)),
            Some(c) => {
                let block = s.subrange(pos + 2, c + 1);
                if is_block_text(render_spec(block)) {
                    Ok((block, c + 1))
                } else {
                    Err(error_at(ErrorKind::BadBlock, pos + 2))
                }
            },
        }
    } else {
        Err(error_at(ErrorKind::ExpectedBlock, pos + 2))
    }
}

/// The subcommand at `pos` and the index of the token after it.
pub open spec fn parse_entry_spec(s: Seq<Tok>, pos: int, end: int) -> Result<
    (CmdHandlerView, int),
    SyntaxError,
> {
    match parse_attrs_spec(s, pos, end, Seq::empty()) {
        Err(e) => Err(e),
        Ok((attrs, p)) => match name_at(s, p, end) {
            None => Err(error_at(ErrorKind::ExpectedIdent, p)),
            Some(ident) => match parse_fields_spec(s, p + 1, end) {
                Err(e) => Err(e),
                Ok((fields, q)) => {
                    let enum_variant = Variant2View { attrs, ident, fields };
                    if arrow_at(s, q, end) {
                        match parse_handler_spec(s, q, end) {
                            Err(e) => Err(e),
                            Ok((block, next)) => Ok(
                                (CmdHandlerView { enum_variant, handler: Some(block) }, next),
                            ),
                        }
                    } else {
                        Ok((CmdHandlerView { enum_variant, handler: None }, q))
                    }
                },
            },
        },
    }
}

/// The index of the variant's name in the subcommand that starts at `pos`.
pub open spec fn entry_name_pos(s: Seq<Tok>, pos: int, end: int) -> int {
    match parse_attrs_spec(s, pos, end, Seq::empty()) {
        Ok((_, p)) => p,
        Err(_) => pos,
    }
}

/// Whether one of the subcommands has the name `ident`.
pub open spec fn has_variant(commands: Seq<CmdHandlerView>, ident: Seq<char>) -> bool {
    exists|i: int| 0 <= i < commands.len() && (#[trigger] commands[i]).enum_variant.ident == ident
}

/// No two of the subcommands have the same name.
pub open spec fn distinct_variants(commands: Seq<CmdHandlerView>) -> bool {
    forall|i: int, j: int|
        0 <= i < j < commands.len() ==> (#[trigger] commands[i]).enum_variant.ident != (
        #[trigger] commands[j]).enum_variant.ident
}

/// The subcommands from `pos` up to `end`, added to `acc`: at least one,
/// parted by commas, of which one may follow the last. A name that an
/// earlier subcommand has is an error.
pub open spec fn parse_entries_spec(
    s: Seq<Tok>,
    pos: int,
    end: int,
    acc: Seq<CmdHandlerView>,
) -> Result<Seq<CmdHandlerView>, SyntaxError>
    decreases end - pos,
{
    match parse_entry_spec(s, pos, end) {
        Err(e) => Err(e),
        Ok((entry, next)) => if has_variant(acc, entry.enum_variant.ident) {
            Err(error_at(ErrorKind::DuplicateVariant, entry_name_pos(s, pos, end)))
        } else if next >= end {
            Ok(acc.push(entry))
        } else if !is_punct(s[next], ',') {
            Err(error_at(ErrorKind::ExpectedComma, next))
        } else if next + 1 >= end {
            Ok(acc.push(entry))
        } else {
            proof {
                lemma_entry_bounds(s, pos, end);
            }
            parse_entries_spec(s, next + 1, end, acc.push(entry))
        },
    }
}

/// The head of a declaration at `pos`, and the index of the token after its
/// `;`.
pub open spec fn parse_parser_def_spec(s: Seq<Tok>, pos: int, end: int) -> Result<
    (ParserDefView, int),
    SyntaxError,
> {
    match parse_attrs_spec(s, pos, end, Seq::empty()) {
        Err(e) => Err(e),
        Ok((attrs, p)) => match name_at(s, p, end) {
            None => Err(error_at(ErrorKind::ExpectedIdent, p)),
            Some(ident) => if !(p + 1 < end && s[p + 1] == Tok::Open(Delim::Brace)) {
                Err(error_at(ErrorKind::ExpectedBrace, p + 1))
            } else {
                match group_close(s, p + 1, end, Delim::Brace) {
                    None => Err(error_at(ErrorKind::UnclosedGroup, p + 1)),
                    Some(c) => if !(c + 1 < end && is_punct(s[c + 1], ';')) {
                        Err(error_at(ErrorKind::ExpectedSemicolon, c + 1))
                    } else {
                        match parse_field_list_spec(s, p + 2, c, Seq::empty()) {
                            Err(e) => Err(e),
                            Ok(fields) => Ok((ParserDefView { attrs, ident, fields }, c + 2)),
                        }
                    },
                }
            },
        },
    }
}

/// The section of extra parameters whose keyword stands at `pos`, and the
/// index of the token after its `;`.
pub open spec fn parse_trait_args_spec(s: Seq<Tok>, pos: int, end: int) -> Result<
    (TraitArgsView, int),
    SyntaxError,
> {
    if !(pos + 1 < end && s[pos + 1] == Tok::Open(Delim::Parenthesis)) {
        Err(error_at(ErrorKind::ExpectedParenthesis, pos + 1))
    } else {
        match group_close(s, pos + 1, end, Delim::Parenthesis) {
            None => Err(error_at(ErrorKind::UnclosedGroup, pos + 1)),
            Some(c) => if !(c + 1 < end && is_punct(s[c + 1], ';')) {
                Err(error_at(ErrorKind::ExpectedSemicolon, c + 1))
            } else {
                match parse_field_list_spec(s, pos + 2, c, Seq::empty()) {
                    Err(e) => Err(e),
                    Ok(args) => Ok((TraitArgsView { args }, c + 2)),
                }
            },
        }
    }
}

/// The section of subcommands at `pos`, and the index of the token after its
/// `;`.
pub open spec fn parse_commands_spec(s: Seq<Tok>, pos: int, end: int) -> Result<
    (CommandsView, int),
    SyntaxError,
> {
    if !(pos < end && is_word(s[pos], "commands"@)) {
        Err(error_at(ErrorKind::ExpectedCommands, pos))
    } else if !(pos + 1 < end && s[pos + 1] == Tok::Open(Delim::Brace)) {
        Err(error_at(ErrorKind::ExpectedBrace, pos + 1))
    } else {
        match group_close(s, pos + 1, end, Delim::Brace) {
            None => Err(error_at(ErrorKind::UnclosedGroup, pos + 1)),
            Some(c) => if !(c + 1 < end && is_punct(s[c + 1], ';')) {
                Err(error_at(ErrorKind::ExpectedSemicolon, c + 1))
            } else {
                match parse_entries_spec(s, pos + 2, c, Seq::empty()) {
                    Err(e) => Err(e),
                    Ok(commands) => Ok((CommandsView { commands }, c + 2)),
                }
            },
        }
    }
}

/// The head of a declaration that is the whole of `s`.
pub open spec fn parse_head_spec(s: Seq<Tok>) -> Result<ParserDefView, SyntaxError> {
    match parse_parser_def_spec(s, 0, s.len() as int) {
        Err(e) => Err(e),
        Ok((parser, p)) => if p < s.len() {
            Err(error_at(ErrorKind::TrailingTokens, p))
        } else {
            Ok(parser)
        },
    }
}

/// The declaration that is the whole of `s`.
pub open spec fn parse_spec(s: Seq<Tok>) -> Result<ClapArgsWithSubsView, SyntaxError> {
    let end = s.len() as int;
    match parse_parser_def_spec(s, 0, end) {
        Err(e) => Err(e),
        Ok((parser, p)) => {
            let args = if p < end && is_word(s[p], "trait_args"@) {
                match parse_trait_args_spec(s, p, end) {
                    Err(e) => Err(e),
                    Ok((trait_args, q)) => Ok((Some(trait_args), q)),
                }
            } else {
                Ok((None, p))
            };
            match args {
                Err(e) => Err(e),
                Ok((trait_args, q)) => match parse_commands_spec(s, q, end) {
                    Err(e) => Err(e),
                    Ok((commands, r)) => if r < end {
                        Err(error_at(ErrorKind::TrailingTokens, r))
                    } else {
                        Ok(ClapArgsWithSubsView { parser, trait_args, commands })
                    },
                },
            }
        },
    }
}

/// A closing token that the scan finds lies between where it started and
/// `end`.
pub proof fn lemma_scan_close_bounds(s: Seq<Tok>, j: int, end: int, depth: nat)
    ensures
        scan_close(s, j, end, depth) matches Some(c) ==> j <= c < end && s[c] is Close,
    decreases end - j,
{
    if j < end {
        match s[j] {
            Tok::Open(_) => lemma_scan_close_bounds(s, j + 1, end, depth + 1),
            Tok::Close(_) => if depth > 0 {
                lemma_scan_close_bounds(s, j + 1, end, (depth - 1) as nat)
            },
            _ => lemma_scan_close_bounds(s, j + 1, end, depth),
        }
    }
}

/// The comma that the scan finds lies between where it started and `end`.
pub proof fn lemma_next_comma_bounds(s: Seq<Tok>, j: int, end: int, depth: nat)
    requires
        j <= end,
    ensures
        j <= next_comma(s, j, end, depth) <= end,
        next_comma(s, j, end, depth) < end ==> is_punct(s[next_comma(s, j, end, depth)], ','),
    decreases end - j,
{
    if j < end {
        match s[j] {
            Tok::Open(_) => lemma_next_comma_bounds(s, j + 1, end, depth + 1),
            Tok::Close(_) => lemma_next_comma_bounds(
                s,
                j + 1,
                end,
                if depth > 0 {
                    (depth - 1) as nat
                } else {
                    0
                },
            ),
            _ => if !(depth == 0 && is_punct(s[j], ',')) {
                lemma_next_comma_bounds(s, j + 1, end, depth)
            },
        }
    }
}

/// Attributes end between where they start and `end`.
pub proof fn lemma_attrs_bounds(s: Seq<Tok>, pos: int, end: int, acc: Seq<Seq<Tok>>)
    requires
        pos <= end,
    ensures
        parse_attrs_spec(s, pos, end, acc) matches Ok((_, p)) ==> pos <= p <= end,
    decreases end - pos,
{
    if pos < end && is_punct(s[pos], '#') && pos + 1 < end && s[pos + 1] == Tok::Open(
        Delim::Bracket,
    ) {
        lemma_scan_close_bounds(s, pos + 2, end, 0);
        match group_close(s, pos + 1, end, Delim::Bracket) {
            None => {},
            Some(c) => {
                let attr = s.subrange(pos, c + 1);
                if is_attributes_text(render_spec(attr)) {
                    lemma_attrs_bounds(s, c + 1, end, acc.push(attr));
                }
            },
        }
    }
}

/// A type ends after it starts, at a comma or at `end`.
pub proof fn lemma_type_end_bounds(s: Seq<Tok>, start: int, from: int, end: int)
    requires
        start <= from <= end,
    ensures
        type_end(s, start, from, end) matches Some(e) ==> start < e <= end && from <= e && (e < end
            ==> is_punct(s[e], ',')),
    decreases end - from,
{
    lemma_next_comma_bounds(s, from, end, 0);
    let stop = next_comma(s, from, end, 0);
    if start < stop && is_type_text(render_spec(s.subrange(start, stop))) {
    } else if stop < end {
        lemma_type_end_bounds(s, start, stop + 1, end);
    }
}

/// A field is not empty, and a comma or `end` follows it.
pub proof fn lemma_field_bounds(s: Seq<Tok>, pos: int, end: int)
    requires
        pos <= end,
    ensures
        parse_field_spec(s, pos, end) matches Ok((_, next)) ==> pos < next <= end && (next < end
            ==> is_punct(s[next], ',')),
{
    lemma_attrs_bounds(s, pos, end, Seq::empty());
    match parse_attrs_spec(s, pos, end, Seq::empty()) {
        Err(_) => {},
        Ok((_, p)) => {
            if p + 2 <= end {
                lemma_type_end_bounds(s, p + 2, p + 2, end);
            }
        },
    }
}

/// What a variant carries ends between where it starts and `end`.
pub proof fn lemma_fields_bounds(s: Seq<Tok>, pos: int, end: int)
    requires
        pos <= end,
    ensures
        parse_fields_spec(s, pos, end) matches Ok((_, q)) ==> pos <= q <= end,
{
    lemma_scan_close_bounds(s, pos + 1, end, 0);
}

/// A subcommand is not empty and ends by `end`.
pub proof fn lemma_entry_bounds(s: Seq<Tok>, pos: int, end: int)
    requires
        pos <= end,
    ensures
        parse_entry_spec(s, pos, end) matches Ok((_, next)) ==> pos < next <= end,
{
    lemma_attrs_bounds(s, pos, end, Seq::empty());
    match parse_attrs_spec(s, pos, end, Seq::empty()) {
        Err(_) => {},
        Ok((_, p)) => {
            if p < end {
                lemma_fields_bounds(s, p + 1, end);
                match parse_fields_spec(s, p + 1, end) {
                    Err(_) => {},
                    Ok((_, q)) => {
                        lemma_scan_close_bounds(s, q + 3, end, 0);
                    },
                }
            }
        },
    }
}

} // verus!
