//! The parser: from tokens to the syntax tree, as the grammar says.

use vstd::prelude::*;
use crate::token::{
    Delim, Tok, Token, close_at, copy_range, open_at, punct_at, render, word_at,
};
use crate::error::{ErrorKind, SyntaxError};
use crate::syntax::{parses_as_attributes, parses_as_block, parses_as_ident, parses_as_type};
use crate::ast::{
    ClapArgsWithSubs, ClapArgsWithSubsView, CmdHandler, CmdHandlerView, Commands, CommandsView,
    Field, FieldView, Fields, FieldsView, ParserDef, ParserDefView, TraitArgs, TraitArgsView,
    Variant2,
};
use crate::grammar::{
    arrow_at, group_close, has_variant, name_at, next_comma, parse_attrs_spec,
    parse_commands_spec, parse_entries_spec, parse_entry_spec, parse_field_list_spec,
    parse_field_spec, parse_fields_spec, parse_handler_spec, parse_head_spec,
    parse_parser_def_spec, parse_spec, parse_trait_args_spec, scan_close, type_end,
};

verus! {

/// The index of the token that closes the group whose inside starts at
/// `from`.
fn find_close(tokens: &Vec<Token>, from: usize, end: usize) -> (r: Option<usize>)
    requires
        from <= end <= tokens.len(),
    ensures
        match r {
            Some(c) => scan_close(tokens.deep_view(), from as int, end as int, 0) == Some(c as int)
                && from <= c < end,
            None => scan_close(tokens.deep_view(), from as int, end as int, 0) is None,
        },
{
    let ghost s = tokens.deep_view();
    let mut j: usize = from;
    let mut depth: usize = 0;
    while j < end
        invariant
            from <= j <= end <= tokens.len(),
            s == tokens.deep_view(),
            depth <= j - from,
            scan_close(s, from as int, end as int, 0) == scan_close(
                s,
                j as int,
                end as int,
                depth as nat,
            ),
        decreases end - j,
    {
        match &tokens[j] {
            Token::Open(_) => {
                depth += 1;
            },
            Token::Close(_) => {
                if depth == 0 {
                    return Some(j);
                }
                depth -= 1;
            },
            _ => {},
        }
        j += 1;
    }
    None
}

/// The index of the token that closes the group opened at `open`, if it
/// lies before `end` and is a bracket of the kind `d`.
fn find_group_close(tokens: &Vec<Token>, open: usize, end: usize, d: Delim) -> (r: Option<usize>)
    requires
        open < end <= tokens.len(),
    ensures
        match r {
            Some(c) => group_close(tokens.deep_view(), open as int, end as int, d) == Some(
                c as int,
            ) && open < c < end,
            None => group_close(tokens.deep_view(), open as int, end as int, d) is None,
        },
{
    match find_close(tokens, open + 1, end) {
        Some(c) => if close_at(tokens, c, end, d) {
            Some(c)
        } else {
            None
        },
        None => None,
    }
}

/// The index of the first comma from `from` on that stands outside all
/// groups, or `end`.
fn find_comma(tokens: &Vec<Token>, from: usize, end: usize) -> (r: usize)
    requires
        from <= end <= tokens.len(),
    ensures
        r == next_comma(tokens.deep_view(), from as int, end as int, 0),
        from <= r <= end,
{
    let ghost s = tokens.deep_view();
    let mut j: usize = from;
    let mut depth: usize = 0;
    while j < end
        invariant
            from <= j <= end <= tokens.len(),
            s == tokens.deep_view(),
            depth <= j - from,
            next_comma(s, from as int, end as int, 0) == next_comma(
                s,
                j as int,
                end as int,
                depth as nat,
            ),
        decreases end - j,
    {
        match &tokens[j] {
            Token::Open(_) => {
                depth += 1;
            },
            Token::Close(_) => {
                if depth > 0 {
                    depth -= 1;
                }
            },
            Token::Punct(c, _) => {
                if depth == 0 && *c == ',' {
                    return j;
                }
            },
            _ => {},
        }
        j += 1;
    }
    end
}

/// The name at `pos`, if a name stands there.
fn read_name(tokens: &Vec<Token>, pos: usize, end: usize) -> (r: Option<String>)
    requires
        end <= tokens.len(),
    ensures
        r.deep_view() == name_at(tokens.deep_view(), pos as int, end as int),
{
    if pos < end {
        match &tokens[pos] {
            Token::Ident(name) => if parses_as_ident(name.as_str()) {
                Some(name.clone())
            } else {
                None
            },
            _ => None,
        }
    } else {
        None
    }
}

/// Reads the attributes that start at `pos`.
pub(crate) fn parse_attrs(tokens: &Vec<Token>, pos: usize, end: usize) -> (r: Result<
    (Vec<Vec<Token>>, usize),
    SyntaxError,
>)
    requires
        pos <= end <= tokens.len(),
    ensures
        match r {
            Ok((attrs, p)) => parse_attrs_spec(
                tokens.deep_view(),
                pos as int,
                end as int,
                Seq::empty(),
            ) == Ok::<(Seq<Seq<Tok>>, int), SyntaxError>((attrs.deep_view(), p as int)) && pos <= p
                <= end,
            Err(e) => parse_attrs_spec(tokens.deep_view(), pos as int, end as int, Seq::empty())
                == Err::<(Seq<Seq<Tok>>, int), SyntaxError>(e),
        },
{
    let ghost s = tokens.deep_view();
    let mut attrs: Vec<Vec<Token>> = Vec::new();
    let mut p: usize = pos;
    assert(attrs.deep_view() =~= Seq::<Seq<Tok>>::empty());
    while punct_at(tokens, p, end, '#')
        invariant
            pos <= p <= end <= tokens.len(),
            s == tokens.deep_view(),
            parse_attrs_spec(s, pos as int, end as int, Seq::empty()) == parse_attrs_spec(
                s,
                p as int,
                end as int,
                attrs.deep_view(),
            ),
        decreases end - p,
    {
        if !open_at(tokens, p + 1, end, Delim::Bracket) {
            return Err(SyntaxError { kind: ErrorKind::ExpectedBracket, position: p + 1 });
        }
        match find_group_close(tokens, p + 1, end, Delim::Bracket) {
            None => {
                return Err(SyntaxError { kind: ErrorKind::UnclosedGroup, position: p + 1 });
            },
            Some(c) => {
                let attr = copy_range(tokens, p, c + 1);
                let text = render(&attr);
                if !parses_as_attributes(text.as_str()) {
                    return Err(SyntaxError { kind: ErrorKind::BadAttribute, position: p });
                }
                let ghost before = attrs.deep_view();
                attrs.push(attr);
                assert(attrs.deep_view() =~= before.push(s.subrange(p as int, c + 1)));
                p = c + 1;
            },
        }
    }
    Ok((attrs, p))
}

/// The end of the type that starts at `start`.
fn find_type_end(tokens: &Vec<Token>, start: usize, end: usize) -> (r: Option<usize>)
    requires
        start <= end <= tokens.len(),
    ensures
        match r {
            Some(e) => type_end(tokens.deep_view(), start as int, start as int, end as int)
                == Some(e as int) && start < e <= end,
            None => type_end(tokens.deep_view(), start as int, start as int, end as int) is None,
        },
{
    let ghost s = tokens.deep_view();
    let mut from: usize = start;
    loop
        invariant
            start <= from <= end <= tokens.len(),
            s == tokens.deep_view(),
            type_end(s, start as int, start as int, end as int) == type_end(
                s,
                start as int,
                from as int,
                end as int,
            ),
        decreases end - from,
    {
        let stop = find_comma(tokens, from, end);
        if start < stop {
            let ty = copy_range(tokens, start, stop);
            let text = render(&ty);
            if parses_as_type(text.as_str()) {
                return Some(stop);
            }
        }
        if stop >= end {
            return None;
        }
        from = stop + 1;
    }
}

/// Reads the field that starts at `pos`.
pub(crate) fn parse_field(tokens: &Vec<Token>, pos: usize, end: usize) -> (r: Result<
    (Field, usize),
    SyntaxError,
>)
    requires
        pos <= end <= tokens.len(),
    ensures
        match r {
            Ok((field, next)) => parse_field_spec(tokens.deep_view(), pos as int, end as int)
                == Ok::<(FieldView, int), SyntaxError>((field.deep_view(), next as int)) && pos
                < next <= end,
            Err(e) => parse_field_spec(tokens.deep_view(), pos as int, end as int) == Err::<
                (FieldView, int),
                SyntaxError,
            >(e),
        },
{
    let (attrs, p) = match parse_attrs(tokens, pos, end) {
        Ok(found) => found,
        Err(e) => {
            return Err(e);
        },
    };
    let ident = match read_name(tokens, p, end) {
        Some(ident) => ident,
        None => {
            return Err(SyntaxError { kind: ErrorKind::ExpectedIdent, position: p });
        },
    };
    if !punct_at(tokens, p + 1, end, ':') {
        return Err(SyntaxError { kind: ErrorKind::ExpectedColon, position: p + 1 });
    }
    match find_type_end(tokens, p + 2, end) {
        None => Err(SyntaxError { kind: ErrorKind::ExpectedType, position: p + 2 }),
        Some(e) => {
            let ty = copy_range(tokens, p + 2, e);
            Ok((Field { attrs, ident, ty }, e))
        },
    }
}

/// Reads the fields from `pos` up to `end`.
pub(crate) fn parse_field_list(tokens: &Vec<Token>, pos: usize, end: usize) -> (r: Result<
    Vec<Field>,
    SyntaxError,
>)
    requires
        pos <= end <= tokens.len(),
    ensures
        match r {
            Ok(fields) => parse_field_list_spec(
                tokens.deep_view(),
                pos as int,
                end as int,
                Seq::empty(),
            ) == Ok::<Seq<FieldView>, SyntaxError>(fields.deep_view()),
            Err(e) => parse_field_list_spec(
                tokens.deep_view(),
                pos as int,
                end as int,
                Seq::empty(),
            ) == Err::<Seq<FieldView>, SyntaxError>(e),
        },
{
    let ghost s = tokens.deep_view();
    let mut fields: Vec<Field> = Vec::new();
    let mut p: usize = pos;
    assert(fields.deep_view() =~= Seq::<FieldView>::empty());
    while p < end
        invariant
            pos <= p <= end <= tokens.len(),
            s == tokens.deep_view(),
            parse_field_list_spec(s, pos as int, end as int, Seq::empty())
                == parse_field_list_spec(s, p as int, end as int, fields.deep_view()),
        decreases end - p,
    {
        match parse_field(tokens, p, end) {
            Err(e) => {
                return Err(e);
            },
            Ok((field, next)) => {
                let ghost before = fields.deep_view();
                let ghost added = field.deep_view();
                fields.push(field);
                assert(fields.deep_view() =~= before.push(added));
                if next >= end {
                    return Ok(fields);
                }
                p = next + 1;
            },
        }
    }
    Ok(fields)
}

/// Reads what a variant carries, at `pos`: named fields in braces, one type
/// in parentheses, or nothing.
pub(crate) fn parse_fields(tokens: &Vec<Token>, pos: usize, end: usize) -> (r: Result<
    (Fields, usize),
    SyntaxError,
>)
    requires
        pos <= end <= tokens.len(),
    ensures
        match r {
            Ok((fields, next)) => parse_fields_spec(tokens.deep_view(), pos as int, end as int)
                == Ok::<(FieldsView, int), SyntaxError>((fields.deep_view(), next as int)) && pos
                <= next <= end,
            Err(e) => parse_fields_spec(tokens.deep_view(), pos as int, end as int) == Err::<
                (FieldsView, int),
                SyntaxError,
            >(e),
        },
{
    if open_at(tokens, pos, end, Delim::Brace) {
        match find_group_close(tokens, pos, end, Delim::Brace) {
            None => Err(SyntaxError { kind: ErrorKind::UnclosedGroup, position: pos }),
            Some(c) => match parse_field_list(tokens, pos + 1, c) {
                Err(e) => Err(e),
                Ok(named) => Ok((Fields::Named(named), c + 1)),
            },
        }
    } else if open_at(tokens, pos, end, Delim::Parenthesis) {
        match find_group_close(tokens, pos, end, Delim::Parenthesis) {
            None => Err(SyntaxError { kind: ErrorKind::UnclosedGroup, position: pos }),
            Some(c) => {
                let ty = copy_range(tokens, pos + 1, c);
                if pos + 1 < c {
                    let text = render(&ty);
                    if parses_as_type(text.as_str()) {
                        return Ok((Fields::Unnamed(ty), c + 1));
                    }
                }
                Err(SyntaxError { kind: ErrorKind::ExpectedType, position: pos + 1 })
            },
        }
    } else {
        Ok((Fields::Unit, pos))
    }
}

/// Whether `=>` stands at `pos`.
fn at_arrow(tokens: &Vec<Token>, pos: usize, end: usize) -> (b: bool)
    requires
        pos <= end <= tokens.len(),
    ensures
        b == arrow_at(tokens.deep_view(), pos as int, end as int),
{
    if pos < end && punct_at(tokens, pos + 1, end, '>') {
        match &tokens[pos] {
            Token::Punct(c, joint) => *c == '=' && *joint,
            _ => false,
        }
    } else {
        false
    }
}

/// Reads the handler that follows the arrow at `pos`.
fn parse_handler(tokens: &Vec<Token>, pos: usize, end: usize) -> (r: Result<
    (Vec<Token>, usize),
    SyntaxError,
>)
    requires
        pos + 1 < end <= tokens.len(),
    ensures
        match r {
            Ok((block, next)) => parse_handler_spec(tokens.deep_view(), pos as int, end as int)
                == Ok::<(Seq<Tok>, int), SyntaxError>((block.deep_view(), next as int)) && pos
                < next <= end,
            Err(e) => parse_handler_spec(tokens.deep_view(), pos as int, end as int) == Err::<
                (Seq<Tok>, int),
                SyntaxError,
            >(e),
        },
{
    if !open_at(tokens, pos + 2, end, Delim::Brace) {
        return Err(SyntaxError { kind: ErrorKind::ExpectedBlock, position: pos + 2 });
    }
    match find_group_close(tokens, pos + 2, end, Delim::Brace) {
        None => Err(SyntaxError { kind: ErrorKind::UnclosedGroup, position: pos + 2 }),
        Some(c) => {
            let block = copy_range(tokens, pos + 2, c + 1);
            let text = render(&block);
            if parses_as_block(text.as_str()) {
                Ok((block, c + 1))
            } else {
                Err(SyntaxError { kind: ErrorKind::BadBlock, position: pos + 2 })
            }
        },
    }
}

/// Whether one of the subcommands has the name `ident`.
fn names_variant(commands: &Vec<CmdHandler>, ident: &String) -> (b: bool)
    ensures
        b == has_variant(commands.deep_view(), ident@),
{
    let mut i: usize = 0;
    while i < commands.len()
        invariant
            i <= commands.len(),
            !has_variant(commands.deep_view().subrange(0, i as int), ident@),
        decreases commands.len() - i,
    {
        if commands[i].enum_variant.ident == *ident {
            assert(commands.deep_view()[i as int].enum_variant.ident == ident@);
            return true;
        }
        i += 1;
        assert forall|k: int| 0 <= k < i implies (#[trigger] commands.deep_view().subrange(
            0,
            i as int,
        )[k]).enum_variant.ident != ident@ by {
            if k < i - 1 {
                assert(commands.deep_view().subrange(0, i as int - 1)[k]
                    == commands.deep_view().subrange(0, i as int)[k]);
            }
        }
    }
    assert(commands.deep_view().subrange(0, commands.len() as int) =~= commands.deep_view());
    false
}

impl CmdHandler {
    /// Reads the subcommand that starts at `pos`.
    pub(crate) fn parse_at(tokens: &Vec<Token>, pos: usize, end: usize) -> (r: Result<
        (CmdHandler, usize),
        SyntaxError,
    >)
        requires
            pos <= end <= tokens.len(),
        ensures
            match r {
                Ok((entry, next)) => parse_entry_spec(tokens.deep_view(), pos as int, end as int)
                    == Ok::<(CmdHandlerView, int), SyntaxError>(
                    (entry.deep_view(), next as int),
                ) && pos < next <= end,
                Err(e) => parse_entry_spec(tokens.deep_view(), pos as int, end as int) == Err::<
                    (CmdHandlerView, int),
                    SyntaxError,
                >(e),
            },
    {
        let (attrs, p) = match parse_attrs(tokens, pos, end) {
            Ok(found) => found,
            Err(e) => {
                return Err(e);
            },
        };
        let ident = match read_name(tokens, p, end) {
            Some(ident) => ident,
            None => {
                return Err(SyntaxError { kind: ErrorKind::ExpectedIdent, position: p });
            },
        };
        let (fields, q) = match parse_fields(tokens, p + 1, end) {
            Ok(found) => found,
            Err(e) => {
                return Err(e);
            },
        };
        let enum_variant = Variant2 { attrs, ident, fields };
        if at_arrow(tokens, q, end) {
            match parse_handler(tokens, q, end) {
                Err(e) => Err(e),
                Ok((block, next)) => Ok((CmdHandler { enum_variant, handler: Some(block) }, next)),
            }
        } else {
            Ok((CmdHandler { enum_variant, handler: None }, q))
        }
    }
}

/// Reads the subcommands from `pos` up to `end`.
pub(crate) fn parse_entries(tokens: &Vec<Token>, pos: usize, end: usize) -> (r: Result<
    Vec<CmdHandler>,
    SyntaxError,
>)
    requires
        pos <= end <= tokens.len(),
    ensures
        match r {
            Ok(commands) => parse_entries_spec(
                tokens.deep_view(),
                pos as int,
                end as int,
                Seq::empty(),
            ) == Ok::<Seq<CmdHandlerView>, SyntaxError>(commands.deep_view()),
            Err(e) => parse_entries_spec(tokens.deep_view(), pos as int, end as int, Seq::empty())
                == Err::<Seq<CmdHandlerView>, SyntaxError>(e),
        },
{
    let ghost s = tokens.deep_view();
    let mut commands: Vec<CmdHandler> = Vec::new();
    let mut p: usize = pos;
    assert(commands.deep_view() =~= Seq::<CmdHandlerView>::empty());
    loop
        invariant
            pos <= p <= end <= tokens.len(),
            s == tokens.deep_view(),
            parse_entries_spec(s, pos as int, end as int, Seq::empty()) == parse_entries_spec(
                s,
                p as int,
                end as int,
                commands.deep_view(),
            ),
        decreases end - p,
    {
        match CmdHandler::parse_at(tokens, p, end) {
            Err(e) => {
                return Err(e);
            },
            Ok((entry, next)) => {
                if names_variant(&commands, &entry.enum_variant.ident) {
                    let at = match parse_attrs(tokens, p, end) {
                        Ok((_, at)) => at,
                        Err(_) => p,
                    };
                    return Err(SyntaxError { kind: ErrorKind::DuplicateVariant, position: at });
                }
                let ghost before = commands.deep_view();
                let ghost added = entry.deep_view();
                commands.push(entry);
                assert(commands.deep_view() =~= before.push(added));
                if next >= end {
                    return Ok(commands);
                }
                if !punct_at(tokens, next, end, ',') {
                    return Err(SyntaxError { kind: ErrorKind::ExpectedComma, position: next });
                }
                if next + 1 >= end {
                    return Ok(commands);
                }
                p = next + 1;
            },
        }
    }
}

impl ParserDef {
    /// Reads the head of a declaration at `pos`.
    pub(crate) fn parse_at(tokens: &Vec<Token>, pos: usize, end: usize) -> (r: Result<
        (ParserDef, usize),
        SyntaxError,
    >)
        requires
            pos <= end <= tokens.len(),
        ensures
            match r {
                Ok((parser, next)) => parse_parser_def_spec(
                    tokens.deep_view(),
                    pos as int,
                    end as int,
                ) == Ok::<(ParserDefView, int), SyntaxError>((parser.deep_view(), next as int))
                    && pos < next <= end,
                Err(e) => parse_parser_def_spec(tokens.deep_view(), pos as int, end as int)
                    == Err::<(ParserDefView, int), SyntaxError>(e),
            },
    {
        let (attrs, p) = match parse_attrs(tokens, pos, end) {
            Ok(found) => found,
            Err(e) => {
                return Err(e);
            },
        };
        let ident = match read_name(tokens, p, end) {
            Some(ident) => ident,
            None => {
                return Err(SyntaxError { kind: ErrorKind::ExpectedIdent, position: p });
            },
        };
        if !open_at(tokens, p + 1, end, Delim::Brace) {
            return Err(SyntaxError { kind: ErrorKind::ExpectedBrace, position: p + 1 });
        }
        let c = match find_group_close(tokens, p + 1, end, Delim::Brace) {
            Some(c) => c,
            None => {
                return Err(SyntaxError { kind: ErrorKind::UnclosedGroup, position: p + 1 });
            },
        };
        if !punct_at(tokens, c + 1, end, ';') {
            return Err(SyntaxError { kind: ErrorKind::ExpectedSemicolon, position: c + 1 });
        }
        match parse_field_list(tokens, p + 2, c) {
            Err(e) => Err(e),
            Ok(fields) => Ok((ParserDef { attrs, ident, fields }, c + 2)),
        }
    }

    /// Reads the head of a declaration that is all of `tokens`.
    pub fn parse(tokens: &Vec<Token>) -> (r: Result<ParserDef, SyntaxError>)
        ensures
            match r {
                Ok(parser) => parse_head_spec(tokens.deep_view()) == Ok::<
                    ParserDefView,
                    SyntaxError,
                >(parser.deep_view()),
                Err(e) => parse_head_spec(tokens.deep_view()) == Err::<ParserDefView, SyntaxError>(
                    e,
                ),
            },
    {
        match ParserDef::parse_at(tokens, 0, tokens.len()) {
            Err(e) => Err(e),
            Ok((parser, p)) => if p < tokens.len() {
                Err(SyntaxError { kind: ErrorKind::TrailingTokens, position: p })
            } else {
                Ok(parser)
            },
        }
    }
}

impl TraitArgs {
    /// Reads the section of extra parameters whose keyword stands at `pos`.
    pub(crate) fn parse_at(tokens: &Vec<Token>, pos: usize, end: usize) -> (r: Result<
        (TraitArgs, usize),
        SyntaxError,
    >)
        requires
            pos < end <= tokens.len(),
        ensures
            match r {
                Ok((args, next)) => parse_trait_args_spec(
                    tokens.deep_view(),
                    pos as int,
                    end as int,
                ) == Ok::<(TraitArgsView, int), SyntaxError>((args.deep_view(), next as int))
                    && pos < next <= end,
                Err(e) => parse_trait_args_spec(tokens.deep_view(), pos as int, end as int)
                    == Err::<(TraitArgsView, int), SyntaxError>(e),
            },
    {
        if !open_at(tokens, pos + 1, end, Delim::Parenthesis) {
            return Err(SyntaxError { kind: ErrorKind::ExpectedParenthesis, position: pos + 1 });
        }
        let c = match find_group_close(tokens, pos + 1, end, Delim::Parenthesis) {
            Some(c) => c,
            None => {
                return Err(SyntaxError { kind: ErrorKind::UnclosedGroup, position: pos + 1 });
            },
        };
        if !punct_at(tokens, c + 1, end, ';') {
            return Err(SyntaxError { kind: ErrorKind::ExpectedSemicolon, position: c + 1 });
        }
        match parse_field_list(tokens, pos + 2, c) {
            Err(e) => Err(e),
            Ok(args) => Ok((TraitArgs { args }, c + 2)),
        }
    }
}

impl Commands {
    /// Reads the section of subcommands at `pos`.
    pub(crate) fn parse_at(tokens: &Vec<Token>, pos: usize, end: usize) -> (r: Result<
        (Commands, usize),
        SyntaxError,
    >)
        requires
            pos <= end <= tokens.len(),
        ensures
            match r {
                Ok((commands, next)) => parse_commands_spec(
                    tokens.deep_view(),
                    pos as int,
                    end as int,
                ) == Ok::<(CommandsView, int), SyntaxError>((commands.deep_view(), next as int))
                    && pos < next <= end,
                Err(e) => parse_commands_spec(tokens.deep_view(), pos as int, end as int) == Err::<
                    (CommandsView, int),
                    SyntaxError,
                >(e),
            },
    {
        if !word_at(tokens, pos, end, "commands") {
            return Err(SyntaxError { kind: ErrorKind::ExpectedCommands, position: pos });
        }
        if !open_at(tokens, pos + 1, end, Delim::Brace) {
            return Err(SyntaxError { kind: ErrorKind::ExpectedBrace, position: pos + 1 });
        }
        let c = match find_group_close(tokens, pos + 1, end, Delim::Brace) {
            Some(c) => c,
            None => {
                return Err(SyntaxError { kind: ErrorKind::UnclosedGroup, position: pos + 1 });
            },
        };
        if !punct_at(tokens, c + 1, end, ';') {
            return Err(SyntaxError { kind: ErrorKind::ExpectedSemicolon, position: c + 1 });
        }
        match parse_entries(tokens, pos + 2, c) {
            Err(e) => Err(e),
            Ok(commands) => Ok((Commands { commands }, c + 2)),
        }
    }
}

impl ClapArgsWithSubs {
    /// Reads the declaration that is all of `tokens`.
    pub fn parse(tokens: &Vec<Token>) -> (r: Result<ClapArgsWithSubs, SyntaxError>)
        ensures
            match r {
                Ok(declaration) => parse_spec(tokens.deep_view()) == Ok::<
                    ClapArgsWithSubsView,
                    SyntaxError,
                >(declaration.deep_view()),
                Err(e) => parse_spec(tokens.deep_view()) == Err::<
                    ClapArgsWithSubsView,
                    SyntaxError,
                >(e),
            },
    {
        let end = tokens.len();
        let (parser, p) = match ParserDef::parse_at(tokens, 0, end) {
            Ok(found) => found,
            Err(e) => {
                return Err(e);
            },
        };
        let (trait_args, q) = if word_at(tokens, p, end, "trait_args") {
            match TraitArgs::parse_at(tokens, p, end) {
                Ok((args, q)) => (Some(args), q),
                Err(e) => {
                    return Err(e);
                },
            }
        } else {
            (None, p)
        };
        match Commands::parse_at(tokens, q, end) {
            Err(e) => Err(e),
            Ok((commands, r)) => if r < end {
                Err(SyntaxError { kind: ErrorKind::TrailingTokens, position: r })
            } else {
                Ok(ClapArgsWithSubs { parser, trait_args, commands })
            },
        }
    }
}

} // verus!
