//! The written form of a declaration: which token sequences are a given
//! declaration written out. This states the grammar by what a declaration
//! looks like, apart from how it is read, and the parser is held to it: it
//! accepts a token sequence as a declaration exactly when the sequence is
//! that declaration written out.
//!
//! Two notions are taken from the grammar's own vocabulary: the closing
//! token of a group, and the end of a type in a list.

use vstd::prelude::*;
use crate::token::{Delim, Tok, is_punct, is_word, render_spec};
use crate::ast::{
    ClapArgsWithSubsView, CmdHandlerView, CommandsView, FieldView, FieldsView, ParserDefView,
    TraitArgsView, Variant2View,
};
use crate::grammar::{
    arrow_at, group_close, has_variant, lemma_entry_bounds, lemma_field_bounds,
    lemma_fields_bounds, lemma_scan_close_bounds, lemma_type_end_bounds, name_at,
    parse_attrs_spec, parse_entries_spec, parse_entry_spec, parse_field_list_spec,
    parse_field_spec, parse_fields_spec, parse_parser_def_spec, parse_spec,
    parse_trait_args_spec, type_end,
};
use crate::laws::law_attrs_read;
use crate::layout::concat_all;
use crate::syntax::{is_attributes_text, is_block_text, is_type_text};
use crate::error::SyntaxError;
use crate::expand_spec;

verus! {

/// The tokens from `pos` up to `p` are the attributes, each a `#` and a
/// group in square brackets that `syn` accepts, and no `#` follows them.
pub open spec fn attrs_written(
    s: Seq<Tok>,
    pos: int,
    p: int,
    end: int,
    attrs: Seq<Seq<Tok>>,
) -> bool
    decreases attrs.len(),
{
    if attrs.len() == 0 {
        p == pos && !(pos < end && is_punct(s[pos], '#'))
    } else {
        let c = pos + attrs[0].len() - 1;
        &&& pos + 1 < c < end
        &&& is_punct(s[pos], '#')
        &&& s[pos + 1] == Tok::Open(Delim::Bracket)
        &&& group_close(s, pos + 1, end, Delim::Bracket) == Some(c)
        &&& s.subrange(pos, c + 1) == attrs[0]
        &&& is_attributes_text(render_spec(attrs[0]))
        &&& attrs_written(s, c + 1, p, end, attrs.skip(1))
    }
}

/// The tokens from `pos` up to `next` are the field `f`: its attributes,
/// its name, `:` and its type, which ends at `next`.
pub open spec fn field_written(s: Seq<Tok>, pos: int, next: int, end: int, f: FieldView) -> bool {
    let p = pos + concat_all(f.attrs).len();
    &&& attrs_written(s, pos, p, end, f.attrs)
    &&& name_at(s, p, end) == Some(f.ident)
    &&& p + 1 < end
    &&& is_punct(s[p + 1], ':')
    &&& type_end(s, p + 2, p + 2, end) == Some(next)
    &&& s.subrange(p + 2, next) == f.ty
}

/// The tokens from `pos` up to `end` are the fields, with a comma between
/// each two; one more comma may follow the last.
pub open spec fn fields_written(s: Seq<Tok>, pos: int, end: int, fields: Seq<FieldView>) -> bool
    decreases fields.len(),
{
    if fields.len() == 0 {
        pos == end
    } else {
        let next = pos + fields[0].tokens().len();
        &&& pos < end
        &&& field_written(s, pos, next, end, fields[0])
        &&& next <= end
        &&& if next == end {
            fields.len() == 1
        } else {
            fields_written(s, next + 1, end, fields.skip(1))
        }
    }
}

/// The tokens from `pos` up to `next` are what a variant carries: nothing,
/// named fields in braces, or one type in parentheses.
pub open spec fn shape_written(
    s: Seq<Tok>,
    pos: int,
    next: int,
    end: int,
    fields: FieldsView,
) -> bool {
    match fields {
        FieldsView::Unit => {
            &&& next == pos
            &&& !(pos < end && (s[pos] == Tok::Open(Delim::Brace) || s[pos] == Tok::Open(
                Delim::Parenthesis,
            )))
        },
        FieldsView::Named(named) => {
            &&& pos < end
            &&& s[pos] == Tok::Open(Delim::Brace)
            &&& group_close(s, pos, end, Delim::Brace) == Some(next - 1)
            &&& fields_written(s, pos + 1, next - 1, named)
        },
        FieldsView::Unnamed(ty) => {
            &&& pos < end
            &&& s[pos] == Tok::Open(Delim::Parenthesis)
            &&& group_close(s, pos, end, Delim::Parenthesis) == Some(next - 1)
            &&& pos + 1 < next - 1
            &&& s.subrange(pos + 1, next - 1) == ty
            &&& is_type_text(render_spec(ty))
        },
    }
}

/// The tokens from `pos` up to `next` are the subcommand `e`: its
/// attributes, its name, what it carries and, where it has a handler, `=>`
/// and the handler's braces with what they hold. Without a handler no `=>`
/// follows.
pub open spec fn entry_written(
    s: Seq<Tok>,
    pos: int,
    next: int,
    end: int,
    e: CmdHandlerView,
) -> bool {
    let p = pos + concat_all(e.enum_variant.attrs).len();
    let q = match e.handler {
        Some(block) => next - block.len() - 2,
        None => next,
    };
    &&& attrs_written(s, pos, p, end, e.enum_variant.attrs)
    &&& name_at(s, p, end) == Some(e.enum_variant.ident)
    &&& shape_written(s, p + 1, q, end, e.enum_variant.fields)
    &&& match e.handler {
        Some(block) => {
            &&& arrow_at(s, q, end)
            &&& q + 2 < end
            &&& s[q + 2] == Tok::Open(Delim::Brace)
            &&& group_close(s, q + 2, end, Delim::Brace) == Some(next - 1)
            &&& s.subrange(q + 2, next) == block
            &&& is_block_text(render_spec(block))
        },
        None => !arrow_at(s, q, end),
    }
}

/// The tokens from `pos` up to `end` are the subcommands, at least one,
/// with a comma between each two; one more comma may follow the last. None
/// has the name of another or of one of `seen`.
pub open spec fn entries_written(
    s: Seq<Tok>,
    pos: int,
    end: int,
    seen: Seq<CmdHandlerView>,
    entries: Seq<CmdHandlerView>,
) -> bool
    decreases entries.len(),
{
    &&& entries.len() > 0
    &&& !has_variant(seen, entries[0].enum_variant.ident)
    &&& exists|next: int|
        {
            &&& #[trigger] entry_written(s, pos, next, end, entries[0])
            &&& next <= end
            &&& if next == end {
                entries.len() == 1
            } else {
                &&& is_punct(s[next], ',')
                &&& if next + 1 == end {
                    entries.len() == 1
                } else {
                    entries_written(s, next + 1, end, seen.push(entries[0]), entries.skip(1))
                }
            }
        }
}

/// The tokens up to `next` are the head of a declaration: attributes, name,
/// the shared options in braces, and `;`.
pub open spec fn head_written(s: Seq<Tok>, next: int, parser: ParserDefView) -> bool {
    let end = s.len() as int;
    let p = concat_all(parser.attrs).len() as int;
    &&& attrs_written(s, 0, p, end, parser.attrs)
    &&& name_at(s, p, end) == Some(parser.ident)
    &&& p + 1 < end
    &&& s[p + 1] == Tok::Open(Delim::Brace)
    &&& group_close(s, p + 1, end, Delim::Brace) == Some(next - 2)
    &&& next - 1 < end
    &&& is_punct(s[next - 1], ';')
    &&& fields_written(s, p + 2, next - 2, parser.fields)
}

/// The tokens from `pos` up to `next` are the section of extra parameters,
/// where there is one: the keyword, the parameters in parentheses, and `;`.
/// Where there is none, the keyword does not stand at `pos`.
pub open spec fn trait_args_written(
    s: Seq<Tok>,
    pos: int,
    next: int,
    trait_args: Option<TraitArgsView>,
) -> bool {
    let end = s.len() as int;
    match trait_args {
        None => next == pos && !(pos < end && is_word(s[pos], "trait_args"@)),
        Some(section) => {
            &&& pos < end
            &&& is_word(s[pos], "trait_args"@)
            &&& pos + 1 < end
            &&& s[pos + 1] == Tok::Open(Delim::Parenthesis)
            &&& group_close(s, pos + 1, end, Delim::Parenthesis) == Some(next - 2)
            &&& next - 1 < end
            &&& is_punct(s[next - 1], ';')
            &&& fields_written(s, pos + 2, next - 2, section.args)
        },
    }
}

/// The tokens from `pos` to the end of `s` are the section of subcommands:
/// the keyword, the subcommands in braces, and `;`.
pub open spec fn commands_written(s: Seq<Tok>, pos: int, commands: Seq<CmdHandlerView>) -> bool {
    let end = s.len() as int;
    &&& pos < end
    &&& is_word(s[pos], "commands"@)
    &&& pos + 1 < end
    &&& s[pos + 1] == Tok::Open(Delim::Brace)
    &&& group_close(s, pos + 1, end, Delim::Brace) == Some(end - 2)
    &&& is_punct(s[end - 1], ';')
    &&& entries_written(s, pos + 2, end - 2, Seq::empty(), commands)
}

/// The sections of `d` stand in `s` one after the other, the head ending
/// at `a` and the section of extra parameters at `b`.
pub open spec fn sections_written(s: Seq<Tok>, a: int, b: int, d: ClapArgsWithSubsView) -> bool {
    &&& 0 <= a <= b
    &&& head_written(s, a, d.parser)
    &&& trait_args_written(s, a, b, d.trait_args)
    &&& commands_written(s, b, d.commands.commands)
}

/// The token sequence `s` is the declaration `d` written out: its head,
/// then the section of extra parameters where it has one, then the section
/// of subcommands, and nothing else.
pub open spec fn declaration_written(s: Seq<Tok>, d: ClapArgsWithSubsView) -> bool {
    exists|a: int, b: int| #[trigger] sections_written(s, a, b, d)
}

/// Attributes that were read beyond `acc` are written where they were read.
pub proof fn lemma_attrs_sound(s: Seq<Tok>, pos: int, end: int, acc: Seq<Seq<Tok>>)
    requires
        0 <= pos <= end <= s.len(),
    ensures
        parse_attrs_spec(s, pos, end, acc) matches Ok((attrs, p)) ==> {
            &&& attrs.len() >= acc.len()
            &&& attrs.subrange(0, acc.len() as int) == acc
            &&& attrs_written(s, pos, p, end, attrs.skip(acc.len() as int))
        },
    decreases end - pos,
{
    let n = acc.len() as int;
    if pos < end && is_punct(s[pos], '#') {
        if pos + 1 < end && s[pos + 1] == Tok::Open(Delim::Bracket) {
            lemma_scan_close_bounds(s, pos + 2, end, 0);
            match group_close(s, pos + 1, end, Delim::Bracket) {
                None => {},
                Some(c) => {
                    let attr = s.subrange(pos, c + 1);
                    if is_attributes_text(render_spec(attr)) {
                        let more = acc.push(attr);
                        lemma_attrs_sound(s, c + 1, end, more);
                        match parse_attrs_spec(s, c + 1, end, more) {
                            Err(_) => {},
                            Ok((attrs, p)) => {
                                assert(attrs.subrange(0, n + 1)[n] == more[n]);
                                assert(attrs.subrange(0, n) =~= attrs.subrange(
                                    0,
                                    n + 1,
                                ).subrange(0, n));
                                assert(attrs.subrange(0, n) =~= acc);
                                assert(attrs.skip(n)[0] == attr);
                                assert(attrs.skip(n).skip(1) =~= attrs.skip(n + 1));
                            },
                        }
                    }
                },
            }
        }
    } else {
        assert(acc.subrange(0, n) =~= acc);
        assert(acc.skip(n) =~= Seq::<Seq<Tok>>::empty());
    }
}

/// Attributes that are written at `pos` are read there, after `acc`.
pub proof fn lemma_attrs_complete(
    s: Seq<Tok>,
    pos: int,
    p: int,
    end: int,
    acc: Seq<Seq<Tok>>,
    attrs: Seq<Seq<Tok>>,
)
    requires
        attrs_written(s, pos, p, end, attrs),
    ensures
        parse_attrs_spec(s, pos, end, acc) == Ok::<(Seq<Seq<Tok>>, int), SyntaxError>(
            (acc + attrs, p),
        ),
    decreases attrs.len(),
{
    if attrs.len() == 0 {
        assert(acc + attrs =~= acc);
    } else {
        let c = pos + attrs[0].len() - 1;
        lemma_attrs_complete(s, c + 1, p, end, acc.push(attrs[0]), attrs.skip(1));
        assert(acc.push(attrs[0]) + attrs.skip(1) =~= acc + attrs);
    }
}

/// A field is read at `pos` exactly when it is written there.
pub proof fn lemma_field_iff(s: Seq<Tok>, pos: int, next: int, end: int, f: FieldView)
    requires
        0 <= pos <= end <= s.len(),
    ensures
        parse_field_spec(s, pos, end) == Ok::<(FieldView, int), SyntaxError>(
            (f, next),
        ) <==> field_written(s, pos, next, end, f),
        field_written(s, pos, next, end, f) ==> next == pos + f.tokens().len() && pos < next
            <= end,
{
    let none = Seq::<Seq<Tok>>::empty();
    if parse_field_spec(s, pos, end) == Ok::<(FieldView, int), SyntaxError>(
        (f, next),
    ) {
        lemma_attrs_sound(s, pos, end, none);
        law_attrs_read(s, pos, end, none);
        let (attrs, p) = parse_attrs_spec(s, pos, end, none)->Ok_0;
        assert(attrs.skip(0) =~= attrs);
        assert(concat_all(none) + s.subrange(pos, p) =~= s.subrange(pos, p));
    }
    if field_written(s, pos, next, end, f) {
        let p = pos + concat_all(f.attrs).len();
        lemma_attrs_complete(s, pos, p, end, none, f.attrs);
        assert(none + f.attrs =~= f.attrs);
        law_attrs_read(s, pos, end, none);
        assert(concat_all(none) + s.subrange(pos, p) =~= s.subrange(pos, p));
        lemma_type_end_bounds(s, p + 2, p + 2, end);
        assert(f.tokens().len() == next - pos);
    }
}

/// Fields are read from `pos` up to `end`, after `acc`, exactly when they
/// are written there.
pub proof fn lemma_field_list_sound(s: Seq<Tok>, pos: int, end: int, acc: Seq<FieldView>)
    requires
        0 <= pos <= end <= s.len(),
    ensures
        parse_field_list_spec(s, pos, end, acc) matches Ok(fields) ==> {
            &&& fields.len() >= acc.len()
            &&& fields.subrange(0, acc.len() as int) == acc
            &&& fields_written(s, pos, end, fields.skip(acc.len() as int))
        },
    decreases end - pos,
{
    let n = acc.len() as int;
    if pos >= end {
        assert(acc.subrange(0, n) =~= acc);
        assert(acc.skip(n) =~= Seq::<FieldView>::empty());
    } else {
        lemma_field_bounds(s, pos, end);
        match parse_field_spec(s, pos, end) {
            Err(_) => {},
            Ok((field, next)) => {
                lemma_field_iff(s, pos, next, end, field);
                let more = acc.push(field);
                if next >= end {
                    assert(more.subrange(0, n) =~= acc);
                    assert(more.skip(n) =~= seq![field]);
                } else {
                    lemma_field_list_sound(s, next + 1, end, more);
                    match parse_field_list_spec(s, next + 1, end, more) {
                        Err(_) => {},
                        Ok(fields) => {
                            assert(fields.subrange(0, n + 1)[n] == more[n]);
                            assert(fields.subrange(0, n) =~= fields.subrange(0, n + 1).subrange(
                                0,
                                n,
                            ));
                            assert(fields.subrange(0, n) =~= acc);
                            assert(fields.skip(n)[0] == field);
                            assert(fields.skip(n).skip(1) =~= fields.skip(n + 1));
                        },
                    }
                }
            },
        }
    }
}

/// Fields that are written from `pos` up to `end` are read there, after
/// `acc`.
pub proof fn lemma_field_list_complete(
    s: Seq<Tok>,
    pos: int,
    end: int,
    acc: Seq<FieldView>,
    fields: Seq<FieldView>,
)
    requires
        0 <= pos <= end <= s.len(),
        fields_written(s, pos, end, fields),
    ensures
        parse_field_list_spec(s, pos, end, acc) == Ok::<Seq<FieldView>, SyntaxError>(
            acc + fields,
        ),
    decreases fields.len(),
{
    if fields.len() == 0 {
        assert(acc + fields =~= acc);
    } else {
        let next = pos + fields[0].tokens().len();
        lemma_field_iff(s, pos, next, end, fields[0]);
        if next == end {
            assert(acc.push(fields[0]) =~= acc + fields);
        } else {
            lemma_field_list_complete(s, next + 1, end, acc.push(fields[0]), fields.skip(1));
            assert(acc.push(fields[0]) + fields.skip(1) =~= acc + fields);
        }
    }
}

/// What a variant carries is read at `pos` exactly when it is written
/// there.
pub proof fn lemma_shape_iff(s: Seq<Tok>, pos: int, next: int, end: int, fields: FieldsView)
    requires
        0 <= pos <= end <= s.len(),
    ensures
        parse_fields_spec(s, pos, end) == Ok::<(FieldsView, int), SyntaxError>(
            (fields, next),
        ) <==> shape_written(s, pos, next, end, fields),
        shape_written(s, pos, next, end, fields) ==> pos <= next <= end,
{
    let none = Seq::<FieldView>::empty();
    lemma_scan_close_bounds(s, pos + 1, end, 0);
    if pos < end && s[pos] == Tok::Open(Delim::Brace) {
        match group_close(s, pos, end, Delim::Brace) {
            None => {},
            Some(c) => {
                lemma_field_list_sound(s, pos + 1, c, none);
                match parse_field_list_spec(s, pos + 1, c, none) {
                    Err(_) => {},
                    Ok(named) => {
                        assert(named.skip(0) =~= named);
                    },
                }
                if let FieldsView::Named(named) = fields {
                    if fields_written(s, pos + 1, c, named) {
                        lemma_field_list_complete(s, pos + 1, c, none, named);
                        assert(none + named =~= named);
                    }
                }
            },
        }
    }
}

/// A subcommand is read at `pos` exactly when it is written there.
pub proof fn lemma_entry_iff(s: Seq<Tok>, pos: int, next: int, end: int, e: CmdHandlerView)
    requires
        0 <= pos <= end <= s.len(),
    ensures
        parse_entry_spec(s, pos, end) == Ok::<(CmdHandlerView, int), SyntaxError>(
            (e, next),
        ) <==> entry_written(s, pos, next, end, e),
        entry_written(s, pos, next, end, e) ==> pos < next <= end,
{
    let none = Seq::<Seq<Tok>>::empty();
    lemma_entry_bounds(s, pos, end);
    if parse_entry_spec(s, pos, end) == Ok::<(CmdHandlerView, int), SyntaxError>(
        (e, next),
    ) {
        lemma_attrs_sound(s, pos, end, none);
        law_attrs_read(s, pos, end, none);
        let (attrs, p) = parse_attrs_spec(s, pos, end, none)->Ok_0;
        assert(attrs.skip(0) =~= attrs);
        assert(concat_all(none) + s.subrange(pos, p) =~= s.subrange(pos, p));
        lemma_fields_bounds(s, p + 1, end);
        let (fields, q) = parse_fields_spec(s, p + 1, end)->Ok_0;
        lemma_shape_iff(s, p + 1, q, end, fields);
        lemma_scan_close_bounds(s, q + 3, end, 0);
    }
    if entry_written(s, pos, next, end, e) {
        let p = pos + concat_all(e.enum_variant.attrs).len();
        let q = match e.handler {
            Some(block) => next - block.len() - 2,
            None => next,
        };
        lemma_attrs_complete(s, pos, p, end, none, e.enum_variant.attrs);
        assert(none + e.enum_variant.attrs =~= e.enum_variant.attrs);
        law_attrs_read(s, pos, end, none);
        lemma_shape_iff(s, p + 1, q, end, e.enum_variant.fields);
        lemma_scan_close_bounds(s, q + 3, end, 0);
        let enum_variant = Variant2View {
            attrs: e.enum_variant.attrs,
            ident: e.enum_variant.ident,
            fields: e.enum_variant.fields,
        };
        assert(enum_variant == e.enum_variant);
    }
}

/// Subcommands that were read beyond `acc` are written where they were
/// read.
pub proof fn lemma_entries_sound(s: Seq<Tok>, pos: int, end: int, acc: Seq<CmdHandlerView>)
    requires
        0 <= pos <= end <= s.len(),
    ensures
        parse_entries_spec(s, pos, end, acc) matches Ok(entries) ==> {
            &&& entries.len() > acc.len()
            &&& entries.subrange(0, acc.len() as int) == acc
            &&& entries_written(s, pos, end, acc, entries.skip(acc.len() as int))
        },
    decreases end - pos,
{
    let n = acc.len() as int;
    lemma_entry_bounds(s, pos, end);
    match parse_entry_spec(s, pos, end) {
        Err(_) => {},
        Ok((entry, next)) => {
            lemma_entry_iff(s, pos, next, end, entry);
            let more = acc.push(entry);
            if parse_entries_spec(s, pos, end, acc) is Ok {
                if next >= end || next + 1 >= end {
                    assert(more.subrange(0, n) =~= acc);
                    assert(more.skip(n) =~= seq![entry]);
                    assert(entry_written(s, pos, next, end, more.skip(n)[0]));
                } else {
                    lemma_entries_sound(s, next + 1, end, more);
                    let entries = parse_entries_spec(s, next + 1, end, more)->Ok_0;
                    assert(entries.subrange(0, n + 1)[n] == more[n]);
                    assert(entries.subrange(0, n) =~= entries.subrange(0, n + 1).subrange(0, n));
                    assert(entries.subrange(0, n) =~= acc);
                    assert(entries.skip(n)[0] == entry);
                    assert(entries.skip(n).skip(1) =~= entries.skip(n + 1));
                    assert(entry_written(s, pos, next, end, entries.skip(n)[0]));
                }
            }
        },
    }
}

/// Subcommands that are written from `pos` up to `end` are read there,
/// after `acc`.
pub proof fn lemma_entries_complete(
    s: Seq<Tok>,
    pos: int,
    end: int,
    acc: Seq<CmdHandlerView>,
    entries: Seq<CmdHandlerView>,
)
    requires
        0 <= pos <= end <= s.len(),
        entries_written(s, pos, end, acc, entries),
    ensures
        parse_entries_spec(s, pos, end, acc) == Ok::<
            Seq<CmdHandlerView>,
            SyntaxError,
        >(acc + entries),
    decreases entries.len(),
{
    let next = choose|next: int|
        {
            &&& #[trigger] entry_written(s, pos, next, end, entries[0])
            &&& next <= end
            &&& if next == end {
                entries.len() == 1
            } else {
                &&& is_punct(s[next], ',')
                &&& if next + 1 == end {
                    entries.len() == 1
                } else {
                    entries_written(s, next + 1, end, acc.push(entries[0]), entries.skip(1))
                }
            }
        };
    lemma_entry_iff(s, pos, next, end, entries[0]);
    if next == end || next + 1 == end {
        assert(acc.push(entries[0]) =~= acc + entries);
    } else {
        lemma_entries_complete(s, next + 1, end, acc.push(entries[0]), entries.skip(1));
        assert(acc.push(entries[0]) + entries.skip(1) =~= acc + entries);
    }
}

/// The head of a declaration is read exactly when it is written.
pub proof fn lemma_head_iff(s: Seq<Tok>, next: int, parser: ParserDefView)
    ensures
        parse_parser_def_spec(s, 0, s.len() as int) == Ok::<
            (ParserDefView, int),
            SyntaxError,
        >((parser, next)) <==> head_written(s, next, parser),
        head_written(s, next, parser) ==> 0 < next <= s.len(),
{
    let end = s.len() as int;
    let none = Seq::<Seq<Tok>>::empty();
    let nothing = Seq::<FieldView>::empty();
    if parse_parser_def_spec(s, 0, end) == Ok::<(ParserDefView, int), SyntaxError>(
        (parser, next),
    ) {
        lemma_attrs_sound(s, 0, end, none);
        law_attrs_read(s, 0, end, none);
        let (attrs, p) = parse_attrs_spec(s, 0, end, none)->Ok_0;
        assert(attrs.skip(0) =~= attrs);
        assert(concat_all(none) + s.subrange(0, p) =~= s.subrange(0, p));
        lemma_scan_close_bounds(s, p + 2, end, 0);
        let c = group_close(s, p + 1, end, Delim::Brace)->0;
        lemma_field_list_sound(s, p + 2, c, nothing);
        assert(parser.fields.skip(0) =~= parser.fields);
    }
    if head_written(s, next, parser) {
        let p = concat_all(parser.attrs).len() as int;
        lemma_attrs_complete(s, 0, p, end, none, parser.attrs);
        assert(none + parser.attrs =~= parser.attrs);
        lemma_scan_close_bounds(s, p + 2, end, 0);
        lemma_field_list_complete(s, p + 2, next - 2, nothing, parser.fields);
        assert(nothing + parser.fields =~= parser.fields);
        let again = ParserDefView {
            attrs: parser.attrs,
            ident: parser.ident,
            fields: parser.fields,
        };
        assert(again == parser);
    }
}

/// The parser accepts a token sequence as the declaration `d` exactly when
/// the sequence is `d` written out: the head of `d`, its section of extra
/// parameters where it has one, and its section of subcommands, each part
/// as it stands in `d`, and nothing else.
pub proof fn law_accepted_iff_written(s: Seq<Tok>, d: ClapArgsWithSubsView)
    ensures
        parse_spec(s) == Ok::<ClapArgsWithSubsView, SyntaxError>(d)
            <==> declaration_written(s, d),
{
    let end = s.len() as int;
    let nothing = Seq::<FieldView>::empty();
    let nobody = Seq::<CmdHandlerView>::empty();
    if parse_spec(s) == Ok::<ClapArgsWithSubsView, SyntaxError>(d) {
        let (parser, a) = parse_parser_def_spec(s, 0, end)->Ok_0;
        lemma_head_iff(s, a, parser);
        let b = if a < end && is_word(s[a], "trait_args"@) {
            lemma_scan_close_bounds(s, a + 2, end, 0);
            let (section, b) = parse_trait_args_spec(s, a, end)->Ok_0;
            let tc = group_close(s, a + 1, end, Delim::Parenthesis)->0;
            lemma_field_list_sound(s, a + 2, tc, nothing);
            assert(section.args.skip(0) =~= section.args);
            b
        } else {
            a
        };
        assert(trait_args_written(s, a, b, d.trait_args));
        lemma_scan_close_bounds(s, b + 2, end, 0);
        let cc = group_close(s, b + 1, end, Delim::Brace)->0;
        lemma_entries_sound(s, b + 2, cc, nobody);
        assert(d.commands.commands.skip(0) =~= d.commands.commands);
        assert(commands_written(s, b, d.commands.commands));
        assert(sections_written(s, a, b, d));
    }
    if declaration_written(s, d) {
        let (a, b) = choose|a: int, b: int| #[trigger] sections_written(s, a, b, d);
        lemma_head_iff(s, a, d.parser);
        match d.trait_args {
            None => {},
            Some(section) => {
                lemma_scan_close_bounds(s, a + 2, end, 0);
                lemma_field_list_complete(s, a + 2, b - 2, nothing, section.args);
                assert(nothing + section.args =~= section.args);
                let again = TraitArgsView { args: section.args };
                assert(again == section);
            },
        }
        lemma_scan_close_bounds(s, b + 2, end, 0);
        lemma_entries_complete(s, b + 2, end - 2, nobody, d.commands.commands);
        assert(nobody + d.commands.commands =~= d.commands.commands);
        let commands = CommandsView { commands: d.commands.commands };
        assert(commands == d.commands);
        let again = ClapArgsWithSubsView {
            parser: d.parser,
            trait_args: d.trait_args,
            commands: d.commands,
        };
        assert(again == d);
    }
}

/// For a token sequence that is a declaration written out, code is
/// emitted: the five pieces of that declaration. For a token sequence that
/// is no declaration written out, there is an error and no code.
pub proof fn law_written_decides(s: Seq<Tok>)
    ensures
        forall|d: ClapArgsWithSubsView| #[trigger]
            declaration_written(s, d) ==> expand_spec(s) == Ok::<
                Seq<Tok>,
                SyntaxError,
            >(d.to_tokens()),
        (forall|d: ClapArgsWithSubsView| !declaration_written(s, d)) ==> parse_spec(s) is Err
            && expand_spec(s) is Err,
{
    assert forall|d: ClapArgsWithSubsView| #[trigger] declaration_written(s, d) implies expand_spec(
        s,
    ) == Ok::<Seq<Tok>, SyntaxError>(d.to_tokens()) by {
        law_accepted_iff_written(s, d);
    }
    if forall|d: ClapArgsWithSubsView| !declaration_written(s, d) {
        if let Ok(d) = parse_spec(s) {
            law_accepted_iff_written(s, d);
        }
    }
}

} // verus!
