//! What holds of every declaration and of the code emitted for it.

use vstd::prelude::*;
use crate::token::{Delim, Tok, is_punct, is_word, render_spec};
use crate::ast::{
    ClapArgsWithSubsView, CmdHandlerView, FieldView, FieldsView, attrs_well_formed,
    commands_well_formed, fields_well_formed,
};
use crate::grammar::{
    arrow_at, distinct_variants, group_close, has_variant, lemma_entry_bounds,
    lemma_fields_bounds, lemma_next_comma_bounds, lemma_scan_close_bounds, lemma_type_end_bounds,
    next_comma, parse_attrs_spec, parse_commands_spec, parse_entries_spec, parse_entry_spec,
    parse_field_list_spec, parse_field_spec, parse_fields_spec, parse_parser_def_spec, parse_spec,
    parse_trait_args_spec, type_end,
};
use crate::syntax::{is_attributes_text, is_type_text};
use crate::error::SyntaxError;
use crate::layout::{
    Behavior, alone, call_args, concat_all, delegate_call, delegate_target, derive_attr,
    fat_arrow, group, join_commas, path_sep, payload_command, qualified_arms, receiver,
    stub_body, word,
};
use crate::syntax::path_parts;
use crate::{expand_spec, is_transform_of};

verus! {

/// Where the part `i` starts among parts that are written one after the
/// other.
pub open spec fn concat_offset(parts: Seq<Seq<Tok>>, i: int) -> int {
    concat_all(parts.subrange(0, i)).len() as int
}

/// Where the part `i` starts among parts that are joined by commas.
pub open spec fn joined_offset(parts: Seq<Seq<Tok>>, i: int) -> int {
    if i == 0 {
        0
    } else {
        (join_commas(parts.subrange(0, i)).len() + 1) as int
    }
}

/// Parts that are written one after the other stand there unchanged, each
/// at its offset.
pub proof fn lemma_concat_holds(parts: Seq<Seq<Tok>>, i: int)
    requires
        0 <= i < parts.len(),
    ensures
        0 <= concat_offset(parts, i),
        concat_offset(parts, i) + parts[i].len() <= concat_all(parts).len(),
        concat_all(parts).subrange(
            concat_offset(parts, i),
            concat_offset(parts, i) + parts[i].len(),
        ) == parts[i],
    decreases parts.len(),
{
    let front = parts.drop_last();
    if i == parts.len() - 1 {
        assert(parts.subrange(0, i) =~= front);
        assert(concat_all(parts).subrange(
            concat_offset(parts, i),
            concat_offset(parts, i) + parts[i].len(),
        ) =~= parts[i]);
    } else {
        lemma_concat_holds(front, i);
        assert(front.subrange(0, i) =~= parts.subrange(0, i));
        assert(concat_all(parts).subrange(
            concat_offset(parts, i),
            concat_offset(parts, i) + parts[i].len(),
        ) =~= concat_all(front).subrange(
            concat_offset(front, i),
            concat_offset(front, i) + front[i].len(),
        ));
    }
}

/// Parts that are joined by commas stand there unchanged, each at its
/// offset.
pub proof fn lemma_joined_holds(parts: Seq<Seq<Tok>>, i: int)
    requires
        0 <= i < parts.len(),
    ensures
        0 <= joined_offset(parts, i),
        joined_offset(parts, i) + parts[i].len() <= join_commas(parts).len(),
        join_commas(parts).subrange(
            joined_offset(parts, i),
            joined_offset(parts, i) + parts[i].len(),
        ) == parts[i],
    decreases parts.len(),
{
    let front = parts.drop_last();
    if parts.len() == 1 {
        assert(join_commas(parts).subrange(0, parts[0].len() as int) =~= parts[0]);
    } else if i == parts.len() - 1 {
        assert(parts.subrange(0, i) =~= front);
        assert(join_commas(parts).subrange(
            joined_offset(parts, i),
            joined_offset(parts, i) + parts[i].len(),
        ) =~= parts[i]);
    } else {
        lemma_joined_holds(front, i);
        assert(front.subrange(0, i) =~= parts.subrange(0, i));
        assert(join_commas(parts).subrange(
            joined_offset(parts, i),
            joined_offset(parts, i) + parts[i].len(),
        ) =~= join_commas(front).subrange(
            joined_offset(front, i),
            joined_offset(front, i) + front[i].len(),
        ));
    }
}

impl ClapArgsWithSubsView {
    /// Where the declaration's attributes start in the parser structure.
    pub open spec fn struct_attrs_offset(self) -> int {
        derive_attr("Parser"@).len() as int
    }

    /// Where the head of the parser structure starts in it.
    pub open spec fn struct_head_offset(self) -> int {
        self.struct_attrs_offset() + concat_all(self.parser.attrs).len()
    }

    /// Where `pub enum` starts in the enumeration.
    pub open spec fn enum_head_offset(self) -> int {
        derive_attr("Subcommand"@).len() as int
    }

    /// Where the variant of the subcommand `i` starts in the enumeration.
    pub open spec fn variant_offset(self, i: int) -> int {
        self.enum_head_offset() + 4 + joined_offset(self.commands.variants(), i)
    }

    /// Where the signature of `run` starts in the dispatch trait.
    pub open spec fn trait_signature_offset(self) -> int {
        14
    }

    /// The arm of the subcommand `i` as it stands in the `match`.
    pub open spec fn match_arm(self, i: int) -> Seq<Tok> {
        qualified_arms(self.commands.arms(self.extra_args()))[i]
    }

    /// Where the signature of `run` starts in the implementation.
    pub open spec fn impl_signature_offset(self) -> int {
        12
    }

    /// Where the arm of the subcommand `i` starts in the implementation.
    pub open spec fn arm_offset(self, i: int) -> int {
        self.impl_signature_offset() + self.run_signature().len() + 5 + joined_offset(
            qualified_arms(self.commands.arms(self.extra_args())),
            i,
        )
    }
}

/// The five pieces of code agree on the three derived names. The alias binds
/// the declaration's name to the name under which the parser structure is
/// declared, applied to the name under which the enumeration is declared.
/// The structure bounds its parameter by the name under which the dispatch
/// trait is declared, and the implementation is that of this trait for this
/// enumeration. Each derived name is the declaration's name with its suffix.
pub proof fn law_names_consistent(d: ClapArgsWithSubsView)
    ensures
        d.struct_ident() == d.parser.ident + "Parser"@,
        d.subcmd_enum_ident() == d.parser.ident + "Cmd"@,
        d.trait_ident() == d.parser.ident + "Run"@,
        d.type_alias()[2] == word(d.parser.ident),
        d.type_alias()[4] == word(d.struct_ident()),
        d.type_alias()[6] == word(d.subcmd_enum_ident()),
        d.parser_struct()[d.struct_head_offset() + 1] == word("struct"@),
        d.parser_struct()[d.struct_head_offset() + 2] == d.type_alias()[4],
        d.parser_struct()[d.struct_head_offset() + d.struct_head().len() - 1] == word(
            d.trait_ident(),
        ),
        d.parser_struct().subrange(
            d.struct_head_offset() + d.struct_head().len() + 1,
            d.struct_head_offset() + d.struct_head().len() + 1 + d.struct_body().len(),
        ) == d.struct_body(),
        d.struct_body().subrange(0, 12) == ClapArgsWithSubsView::command_field() + seq![
            alone(','),
        ],
        d.dispatch_trait()[1] == word("trait"@),
        d.dispatch_trait()[2] == word(d.trait_ident()),
        d.subcmd_enum()[d.enum_head_offset() + 1] == word("enum"@),
        d.subcmd_enum()[d.enum_head_offset() + 2] == d.type_alias()[6],
        d.subcmd_impl()[7] == word("impl"@),
        d.subcmd_impl()[8] == d.dispatch_trait()[2],
        d.subcmd_impl()[9] == word("for"@),
        d.subcmd_impl()[10] == d.type_alias()[6],
{
}

/// The attributes of the declaration stand on the parser structure as they
/// were written, between the derive attribute and `pub struct`, and each of
/// them is found there unchanged.
pub proof fn law_declaration_attrs_pass(d: ClapArgsWithSubsView, i: int)
    requires
        0 <= i < d.parser.attrs.len(),
    ensures
        d.parser_struct().subrange(d.struct_attrs_offset(), d.struct_head_offset()) == concat_all(
            d.parser.attrs,
        ),
        d.parser_struct().subrange(
            d.struct_attrs_offset() + concat_offset(d.parser.attrs, i),
            d.struct_attrs_offset() + concat_offset(d.parser.attrs, i) + d.parser.attrs[i].len(),
        ) == d.parser.attrs[i],
{
    let attrs = concat_all(d.parser.attrs);
    let at = d.struct_attrs_offset();
    assert(d.parser_struct().subrange(at, at + attrs.len()) =~= attrs);
    lemma_concat_holds(d.parser.attrs, i);
    let from = concat_offset(d.parser.attrs, i);
    let to = from + d.parser.attrs[i].len();
    assert(d.parser_struct().subrange(at + from, at + to) =~= attrs.subrange(from, to));
}

/// The variant of every subcommand stands in the enumeration, and it starts
/// with the attributes of the subcommand as they were written, each of them
/// unchanged.
pub proof fn law_variant_attrs_pass(d: ClapArgsWithSubsView, i: int, j: int)
    requires
        0 <= i < d.commands.commands.len(),
        0 <= j < d.commands.commands[i].enum_variant.attrs.len(),
    ensures
        ({
            let variant = d.commands.commands[i].enum_variant;
            let at = d.variant_offset(i);
            let from = concat_offset(variant.attrs, j);
            &&& d.subcmd_enum().subrange(at, at + variant.tokens().len()) == variant.tokens()
            &&& variant.tokens().subrange(0, concat_all(variant.attrs).len() as int)
                == concat_all(variant.attrs)
            &&& variant.tokens()[concat_all(variant.attrs).len() as int] == word(variant.ident)
            &&& d.subcmd_enum().subrange(at + from, at + from + variant.attrs[j].len())
                == variant.attrs[j]
        }),
{
    let variant = d.commands.commands[i].enum_variant;
    let variants = d.commands.variants();
    let at = d.variant_offset(i);
    let inner = joined_offset(variants, i);
    lemma_joined_holds(variants, i);
    assert(variants[i] == variant.tokens());
    assert(d.subcmd_enum().subrange(at, at + variant.tokens().len()) =~= join_commas(
        variants,
    ).subrange(inner, inner + variant.tokens().len()));
    let attrs = concat_all(variant.attrs);
    assert(variant.tokens().subrange(0, attrs.len() as int) =~= attrs);
    lemma_concat_holds(variant.attrs, j);
    let from = concat_offset(variant.attrs, j);
    let to = from + variant.attrs[j].len();
    assert(d.subcmd_enum().subrange(at + from, at + to) =~= attrs.subrange(from, to));
}

/// The arm of every subcommand stands in the implementation, behind
/// `Self::`.
pub proof fn law_arm_in_impl(d: ClapArgsWithSubsView, i: int)
    requires
        0 <= i < d.commands.commands.len(),
    ensures
        d.subcmd_impl().subrange(d.arm_offset(i), d.arm_offset(i) + d.match_arm(i).len())
            == d.match_arm(i),
        d.match_arm(i) == seq![word("Self"@)] + path_sep() + d.commands.commands[i].arm(
            d.extra_args(),
        ),
{
    let arms = qualified_arms(d.commands.arms(d.extra_args()));
    let inner = joined_offset(arms, i);
    lemma_joined_holds(arms, i);
    let at = d.arm_offset(i);
    assert(d.subcmd_impl().subrange(at, at + arms[i].len()) =~= join_commas(arms).subrange(
        inner,
        inner + arms[i].len(),
    ));
}

/// A subcommand with a handler is dispatched by that handler: its arm is the
/// pattern of its variant, `=>` and the handler as it was written, whatever
/// the variant carries.
pub proof fn law_inline_fidelity(entry: CmdHandlerView, args: Seq<FieldView>)
    requires
        entry.handler is Some,
    ensures
        entry.behavior() == Behavior::Inline,
        entry.arm(args) == entry.enum_variant.pattern() + fat_arrow() + entry.handler->0,
        entry.arm(args).subrange(
            entry.arm(args).len() - entry.handler->0.len(),
            entry.arm(args).len() as int,
        ) == entry.handler->0,
{
    let block = entry.handler->0;
    let arm = entry.arm(args);
    assert(arm.subrange(arm.len() - block.len(), arm.len() as int) =~= block);
}

/// A subcommand without a handler that carries one value of a type that
/// `syn` reads as a path hands on to the declaration that the path names:
/// its arm binds the value and calls `run` of the trait that `nested`
/// declares, as it is implemented for the enumeration that `nested`
/// declares, on the active subcommand of the value, followed by the extra
/// parameters by name, in the order in which they were declared. The rest of
/// the path and the arguments of its last segment stand beside both names as
/// they were written.
pub proof fn law_delegation(
    entry: CmdHandlerView,
    args: Seq<FieldView>,
    nested: ClapArgsWithSubsView,
)
    requires
        entry.handler is None,
        delegate_target(entry.enum_variant.fields) matches Some(parts) && parts.1
            == nested.parser.ident,
    ensures
        ({
            let (prefix, name, arguments) = delegate_target(entry.enum_variant.fields)->0;
            &&& entry.behavior() == Behavior::Delegate
            &&& entry.arm(args) == seq![
                word(entry.enum_variant.ident),
                Tok::Open(Delim::Parenthesis),
                word("handler"@),
                Tok::Close(Delim::Parenthesis),
            ] + fat_arrow() + delegate_call(prefix, name, arguments, args)
            &&& delegate_call(prefix, name, arguments, args) == seq![alone('<')] + prefix + seq![
                word(nested.subcmd_enum_ident()),
            ] + arguments + seq![word("as"@)] + prefix + seq![word(nested.trait_ident())]
                + arguments + seq![alone('>')] + path_sep() + seq![word("run"@)] + group(
                Delim::Parenthesis,
                join_commas(call_args(args)),
            )
            &&& call_args(args).len() == args.len() + 1
            &&& call_args(args)[0] == payload_command()
            &&& forall|k: int|
                0 <= k < args.len() ==> #[trigger] call_args(args)[k + 1] == seq![
                    word(args[k].ident),
                ]
        }),
{
    let (prefix, name, arguments) = delegate_target(entry.enum_variant.fields)->0;
    assert(entry.arm(args) =~= seq![
        word(entry.enum_variant.ident),
        Tok::Open(Delim::Parenthesis),
        word("handler"@),
        Tok::Close(Delim::Parenthesis),
    ] + fat_arrow() + delegate_call(prefix, name, arguments, args));
    assert(delegate_call(prefix, name, arguments, args) =~= seq![alone('<')] + prefix + seq![
        word(nested.subcmd_enum_ident()),
    ] + arguments + seq![word("as"@)] + prefix + seq![word(nested.trait_ident())] + arguments
        + seq![alone('>')] + path_sep() + seq![word("run"@)] + group(
        Delim::Parenthesis,
        join_commas(call_args(args)),
    ));
}

/// A subcommand without a handler that has nothing to hand on to fails when
/// it is dispatched: its arm's body is the stub. So it is for a variant that
/// carries nothing or named fields, and for one whose type `syn` reads as
/// something else than a path.
pub proof fn law_stub(entry: CmdHandlerView, args: Seq<FieldView>)
    requires
        entry.handler is None,
        !(entry.enum_variant.fields matches FieldsView::Unnamed(ty) && path_parts(
            render_spec(ty),
        ) is Some),
    ensures
        entry.behavior() == Behavior::Stub,
        entry.body(args) is None,
        entry.arm(args) == entry.enum_variant.pattern() + fat_arrow() + stub_body(),
{
}

/// The arm of every subcommand is made in exactly one of three ways, fixed
/// by the subcommand alone: inline where there is a handler; else handing
/// on where the variant carries one value of a type that `syn` reads as a
/// path; else the stub. There is no body exactly where the arm is the stub.
pub proof fn law_behavior_cases(entry: CmdHandlerView, args: Seq<FieldView>)
    ensures
        entry.behavior() == Behavior::Inline <==> entry.handler is Some,
        entry.behavior() == Behavior::Delegate <==> entry.handler is None
            && entry.enum_variant.fields is Unnamed && path_parts(
            render_spec(entry.enum_variant.fields->Unnamed_0),
        ) is Some,
        entry.behavior() == Behavior::Stub <==> entry.handler is None && !(
        entry.enum_variant.fields is Unnamed && path_parts(
            render_spec(entry.enum_variant.fields->Unnamed_0),
        ) is Some),
        entry.body(args) is None <==> entry.behavior() == Behavior::Stub,
        entry.behavior() == Behavior::Inline ==> entry.body(args) == entry.handler,
        entry.arm(args) == entry.enum_variant.pattern() + fat_arrow() + (match entry.body(args) {
            Some(body) => body,
            None => stub_body(),
        }),
{
}

/// A declaration with `n` extra parameters gives `run` the receiver and
/// these `n` parameters, as they were declared and in their order; the trait
/// and the implementation hold this one signature; and every call that hands
/// on to a nested declaration passes the active subcommand and the same `n`
/// parameters by name, in the same order. So the call fits the signature of
/// a nested declaration that declares as many.
pub proof fn law_trait_args_consistent(d: ClapArgsWithSubsView, nested: ClapArgsWithSubsView)
    ensures
        d.trait_args().len() == d.extra_args().len() + 1,
        d.trait_args()[0] == receiver(),
        forall|k: int|
            0 <= k < d.extra_args().len() ==> #[trigger] d.trait_args()[k + 1]
                == d.extra_args()[k].tokens(),
        d.dispatch_trait().subrange(
            d.trait_signature_offset(),
            d.trait_signature_offset() + d.run_signature().len(),
        ) == d.run_signature(),
        d.subcmd_impl().subrange(
            d.impl_signature_offset(),
            d.impl_signature_offset() + d.run_signature().len(),
        ) == d.run_signature(),
        call_args(d.extra_args()).len() == d.trait_args().len(),
        forall|k: int|
            0 <= k < d.extra_args().len() ==> #[trigger] call_args(d.extra_args())[k + 1] == seq![
                word(d.extra_args()[k].ident),
            ],
        nested.extra_args().len() == d.extra_args().len() ==> call_args(d.extra_args()).len()
            == nested.trait_args().len(),
{
    assert(d.dispatch_trait().subrange(
            d.trait_signature_offset(),
            d.trait_signature_offset() + d.run_signature().len(),
        ) =~= d.run_signature());
    let at = d.impl_signature_offset();
    assert(d.subcmd_impl().subrange(at, at + d.run_signature().len()) =~= d.run_signature());
}

/// Two runs on the same text end alike: whatever two outcomes the entry
/// point gives for one text, both are code, and the same code, or both are
/// errors, and the same error.
pub proof fn law_deterministic(
    text: Seq<char>,
    first: Result<String, SyntaxError>,
    second: Result<String, SyntaxError>,
)
    requires
        is_transform_of(text, first),
        is_transform_of(text, second),
    ensures
        match (first, second) {
            (Ok(a), Ok(b)) => a@ == b@,
            (Err(a), Err(b)) => a == b,
            _ => false,
        },
{
}

/// A declaration ends with the `;` behind the closing brace of its
/// subcommands. Tokens that do not end so are no declaration, and nothing is
/// emitted for them.
pub proof fn law_commands_terminator(s: Seq<Tok>)
    requires
        s.len() < 2 || !is_punct(s.last(), ';') || s[s.len() - 2] != Tok::Close(Delim::Brace),
    ensures
        parse_spec(s) is Err,
        expand_spec(s) is Err,
{
    if parse_spec(s) is Ok {
        lemma_scan_close_bounds(s, 0, s.len() as int, 0);
        assert(false);
    }
}

/// Reading subcommands keeps their names distinct.
pub proof fn lemma_entries_distinct(s: Seq<Tok>, pos: int, end: int, acc: Seq<CmdHandlerView>)
    requires
        pos <= end,
        distinct_variants(acc),
    ensures
        parse_entries_spec(s, pos, end, acc) matches Ok(commands) ==> distinct_variants(commands)
            && commands.len() > acc.len(),
    decreases end - pos,
{
    match parse_entry_spec(s, pos, end) {
        Err(_) => {},
        Ok((entry, next)) => {
            lemma_entry_bounds(s, pos, end);
            if !has_variant(acc, entry.enum_variant.ident) {
                let more = acc.push(entry);
                assert forall|i: int, j: int| 0 <= i < j < more.len() implies (
                #[trigger] more[i]).enum_variant.ident != (#[trigger] more[j]).enum_variant.ident by {
                    if j == acc.len() {
                        assert(more[i] == acc[i]);
                    } else {
                        assert(more[i] == acc[i] && more[j] == acc[j]);
                    }
                }
                if next < end && is_punct(s[next], ',') && next + 1 < end {
                    lemma_entries_distinct(s, next + 1, end, more);
                }
            }
        },
    }
}

/// A declaration has at least one subcommand, and no two of its subcommands
/// have the same name.
pub proof fn law_variants_distinct(s: Seq<Tok>)
    ensures
        parse_spec(s) matches Ok(d) ==> d.commands.commands.len() > 0 && distinct_variants(
            d.commands.commands,
        ),
{
    if let Ok(d) = parse_spec(s) {
        assert forall|pos: int, end: int|
            pos + 2 <= end && (#[trigger] parse_commands_spec(s, pos, end)) is Ok implies ({
            let commands = parse_commands_spec(s, pos, end)->Ok_0.0.commands;
            commands.len() > 0 && distinct_variants(commands)
        }) by {
            lemma_scan_close_bounds(s, pos + 2, end, 0);
            let c = group_close(s, pos + 1, end, Delim::Brace)->0;
            lemma_entries_distinct(s, pos + 2, c, Seq::empty());
        }
    }
}

/// Attributes are read as they were written: what is read beyond `acc` is
/// the tokens from `pos` up to where the attributes end, cut into attributes
/// that `syn` accepts.
pub proof fn law_attrs_read(s: Seq<Tok>, pos: int, end: int, acc: Seq<Seq<Tok>>)
    requires
        0 <= pos <= end <= s.len(),
        attrs_well_formed(acc),
    ensures
        parse_attrs_spec(s, pos, end, acc) matches Ok((attrs, p)) ==> {
            &&& pos <= p <= end
            &&& attrs_well_formed(attrs)
            &&& concat_all(attrs) == concat_all(acc) + s.subrange(pos, p)
        },
    decreases end - pos,
{
    if pos < end && is_punct(s[pos], '#') && pos + 1 < end && s[pos + 1] == Tok::Open(
        Delim::Bracket,
    ) {
        lemma_scan_close_bounds(s, pos + 2, end, 0);
        match group_close(s, pos + 1, end, Delim::Bracket) {
            None => {},
            Some(c) => {
                let attr = s.subrange(pos, c + 1);
                if is_attributes_text(render_spec(attr)) {
                    let more = acc.push(attr);
                    assert(more.drop_last() =~= acc);
                    law_attrs_read(s, c + 1, end, more);
                    match parse_attrs_spec(s, c + 1, end, more) {
                        Err(_) => {},
                        Ok((attrs, p)) => {
                            assert(s.subrange(pos, c + 1) + s.subrange(c + 1, p) =~= s.subrange(
                                pos,
                                p,
                            ));
                            assert(concat_all(attrs) =~= concat_all(acc) + s.subrange(pos, p));
                        },
                    }
                }
            },
        }
    } else {
        assert(s.subrange(pos, pos) =~= Seq::<Tok>::empty());
        assert(concat_all(acc) + s.subrange(pos, pos) =~= concat_all(acc));
    }
}

/// The end of a type is a place before which `syn` accepts the tokens as a
/// type.
pub proof fn lemma_type_end_accepts(s: Seq<Tok>, start: int, from: int, end: int)
    requires
        start <= from <= end,
    ensures
        type_end(s, start, from, end) matches Some(e) ==> is_type_text(
            render_spec(s.subrange(start, e)),
        ),
    decreases end - from,
{
    lemma_next_comma_bounds(s, from, end, 0);
    let stop = next_comma(s, from, end, 0);
    if start < stop && is_type_text(render_spec(s.subrange(start, stop))) {
    } else if stop < end {
        lemma_type_end_accepts(s, start, stop + 1, end);
    }
}

/// A field is read as it was written: its attributes are the tokens from
/// `pos` on, its name is the word behind them, a `:` follows, and its type is
/// the tokens from there up to where the field ends. Each part is what `syn`
/// accepts.
pub proof fn law_field_read(s: Seq<Tok>, pos: int, end: int)
    requires
        0 <= pos <= end <= s.len(),
    ensures
        parse_field_spec(s, pos, end) matches Ok((field, next)) ==> {
            let p = pos + concat_all(field.attrs).len();
            &&& field.well_formed()
            &&& p + 2 < next <= end
            &&& s.subrange(pos, p) == concat_all(field.attrs)
            &&& s[p] == word(field.ident)
            &&& is_punct(s[p + 1], ':')
            &&& s.subrange(p + 2, next) == field.ty
        },
{
    law_attrs_read(s, pos, end, Seq::empty());
    match parse_attrs_spec(s, pos, end, Seq::empty()) {
        Err(_) => {},
        Ok((attrs, p)) => {
            assert(concat_all(Seq::<Seq<Tok>>::empty()) + s.subrange(pos, p) =~= s.subrange(
                pos,
                p,
            ));
            if p + 2 <= end {
                lemma_type_end_bounds(s, p + 2, p + 2, end);
                lemma_type_end_accepts(s, p + 2, p + 2, end);
            }
        },
    }
}

/// Reading fields keeps them well formed.
pub proof fn lemma_field_list_well_formed(s: Seq<Tok>, pos: int, end: int, acc: Seq<FieldView>)
    requires
        0 <= pos,
        end <= s.len(),
        fields_well_formed(acc),
    ensures
        parse_field_list_spec(s, pos, end, acc) matches Ok(fields) ==> fields_well_formed(fields),
    decreases end - pos,
{
    if pos < end {
        law_field_read(s, pos, end);
        match parse_field_spec(s, pos, end) {
            Err(_) => {},
            Ok((field, next)) => {
                let more = acc.push(field);
                assert forall|i: int| 0 <= i < more.len() implies (
                #[trigger] more[i]).well_formed() by {
                    if i < acc.len() {
                        assert(more[i] == acc[i]);
                    }
                }
                if next < end {
                    lemma_field_list_well_formed(s, next + 1, end, more);
                }
            },
        }
    }
}

/// What a variant carries is read well formed.
pub proof fn lemma_fields_well_formed(s: Seq<Tok>, pos: int, end: int)
    requires
        0 <= pos <= end <= s.len(),
    ensures
        parse_fields_spec(s, pos, end) matches Ok((fields, _)) ==> fields.well_formed(),
{
    lemma_scan_close_bounds(s, pos + 1, end, 0);
    if pos < end && s[pos] == Tok::Open(Delim::Brace) {
        match group_close(s, pos, end, Delim::Brace) {
            None => {},
            Some(c) => {
                lemma_field_list_well_formed(s, pos + 1, c, Seq::empty());
            },
        }
    }
}

/// A subcommand is read as it was written: its attributes are the tokens
/// from `pos` on and its name is the word behind them; what it carries is
/// well formed; and its handler, where `=>` follows, is the braces after the
/// arrow with all that they hold, up to where the subcommand ends.
pub proof fn law_entry_read(s: Seq<Tok>, pos: int, end: int)
    requires
        0 <= pos <= end <= s.len(),
    ensures
        parse_entry_spec(s, pos, end) matches Ok((entry, next)) ==> {
            let p = pos + concat_all(entry.enum_variant.attrs).len();
            &&& entry.well_formed()
            &&& p < next <= end
            &&& s.subrange(pos, p) == concat_all(entry.enum_variant.attrs)
            &&& s[p] == word(entry.enum_variant.ident)
            &&& (entry.handler matches Some(block) ==> block.len() >= 2 && s.subrange(
                next - block.len(),
                next,
            ) == block && arrow_at(s, next - block.len() - 2, end) && block[0] == Tok::Open(
                Delim::Brace,
            ) && block.last() == Tok::Close(Delim::Brace))
            &&& (entry.handler is None ==> !arrow_at(s, next, end))
        },
{
    law_attrs_read(s, pos, end, Seq::empty());
    lemma_entry_bounds(s, pos, end);
    match parse_attrs_spec(s, pos, end, Seq::empty()) {
        Err(_) => {},
        Ok((attrs, p)) => {
            assert(concat_all(Seq::<Seq<Tok>>::empty()) + s.subrange(pos, p) =~= s.subrange(
                pos,
                p,
            ));
            if p < end {
                lemma_fields_bounds(s, p + 1, end);
                lemma_fields_well_formed(s, p + 1, end);
                match parse_fields_spec(s, p + 1, end) {
                    Err(_) => {},
                    Ok((_, q)) => {
                        lemma_scan_close_bounds(s, q + 3, end, 0);
                    },
                }
            }
        },
    }
}

/// Reading subcommands keeps them well formed.
pub proof fn lemma_entries_well_formed(
    s: Seq<Tok>,
    pos: int,
    end: int,
    acc: Seq<CmdHandlerView>,
)
    requires
        0 <= pos <= end <= s.len(),
        commands_well_formed(acc),
    ensures
        parse_entries_spec(s, pos, end, acc) matches Ok(commands) ==> commands_well_formed(
            commands,
        ),
    decreases end - pos,
{
    law_entry_read(s, pos, end);
    match parse_entry_spec(s, pos, end) {
        Err(_) => {},
        Ok((entry, next)) => {
            let more = acc.push(entry);
            assert forall|i: int| 0 <= i < more.len() implies (#[trigger] more[i]).well_formed() by {
                if i < acc.len() {
                    assert(more[i] == acc[i]);
                }
            }
            if next < end && is_punct(s[next], ',') && next + 1 < end {
                lemma_entries_well_formed(s, next + 1, end, more);
            }
        },
    }
}

/// Every part of a declaration that was read is what `syn` accepts: its
/// attributes as attributes, its names as names, its types as types and its
/// handlers as blocks. It has at least one subcommand.
pub proof fn law_parsed_well_formed(s: Seq<Tok>)
    ensures
        parse_spec(s) matches Ok(d) ==> d.well_formed(),
{
    let end = s.len() as int;
    law_attrs_read(s, 0, end, Seq::empty());
    match parse_parser_def_spec(s, 0, end) {
        Err(_) => {},
        Ok((parser, p)) => {
            let (_, a) = parse_attrs_spec(s, 0, end, Seq::empty())->Ok_0;
            lemma_scan_close_bounds(s, a + 2, end, 0);
            let c = group_close(s, a + 1, end, Delim::Brace)->0;
            lemma_field_list_well_formed(s, a + 2, c, Seq::empty());
            let q = if p < end && is_word(s[p], "trait_args"@) {
                lemma_scan_close_bounds(s, p + 2, end, 0);
                match parse_trait_args_spec(s, p, end) {
                    Err(_) => p,
                    Ok((_, q)) => {
                        let tc = group_close(s, p + 1, end, Delim::Parenthesis)->0;
                        lemma_field_list_well_formed(s, p + 2, tc, Seq::empty());
                        q
                    },
                }
            } else {
                p
            };
            lemma_scan_close_bounds(s, q + 2, end, 0);
            match parse_commands_spec(s, q, end) {
                Err(_) => {},
                Ok(_) => {
                    let cc = group_close(s, q + 1, end, Delim::Brace)->0;
                    lemma_entries_well_formed(s, q + 2, cc, Seq::empty());
                    lemma_entries_distinct(s, q + 2, cc, Seq::empty());
                },
            }
        },
    }
}

} // verus!
