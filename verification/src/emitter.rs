//! The emitter: from the syntax tree to the tokens of the generated code.

use vstd::prelude::*;
use vstd::string::StringExecFns;
use crate::token::{
    Delim, Tok, Token, append_tokens, push_close, push_open, push_punct, push_word, render,
};
use crate::ast::{
    ClapArgsWithSubs, ClapArgsWithSubsView, CmdHandler, Commands, Field, Fields, Variant2,
};
use crate::layout::{
    Behavior, alone, call_args, concat_all, delegate_call, derive_attr, derived_name, field_list,
    field_names, framework_path, join_commas, path_sep, payload_command, qualified_arms,
    receiver, sibling_path, stub_body, word,
};
use crate::lexer::stream_to_tokens;
use crate::syntax::split_type_path;

verus! {

/// Joining one part more adds a comma, unless it is the first, and the part.
pub proof fn lemma_join_next(parts: Seq<Seq<Tok>>, i: int)
    requires
        0 <= i < parts.len(),
    ensures
        join_commas(parts.subrange(0, i + 1)) == if i == 0 {
            parts[i]
        } else {
            join_commas(parts.subrange(0, i)) + seq![alone(',')] + parts[i]
        },
{
    assert(parts.subrange(0, i + 1).drop_last() =~= parts.subrange(0, i));
}

/// Concatenating one part more adds the part.
pub proof fn lemma_concat_next(parts: Seq<Seq<Tok>>, i: int)
    requires
        0 <= i < parts.len(),
    ensures
        concat_all(parts.subrange(0, i + 1)) == concat_all(parts.subrange(0, i)) + parts[i],
{
    assert(parts.subrange(0, i + 1).drop_last() =~= parts.subrange(0, i));
}

/// Appends the parts, one after the other.
pub fn push_all(out: &mut Vec<Token>, parts: &Vec<Vec<Token>>)
    ensures
        final(out).deep_view() == old(out).deep_view() + concat_all(parts.deep_view()),
{
    let mut i: usize = 0;
    assert(out.deep_view() =~= old(out).deep_view() + concat_all(
        parts.deep_view().subrange(0, 0),
    ));
    while i < parts.len()
        invariant
            i <= parts.len(),
            out.deep_view() == old(out).deep_view() + concat_all(
                parts.deep_view().subrange(0, i as int),
            ),
        decreases parts.len() - i,
    {
        let ghost before = out.deep_view();
        append_tokens(out, &parts[i]);
        proof {
            lemma_concat_next(parts.deep_view(), i as int);
            assert(out.deep_view() =~= old(out).deep_view() + concat_all(
                parts.deep_view().subrange(0, i + 1),
            ));
        }
        i += 1;
    }
    assert(parts.deep_view().subrange(0, parts.len() as int) =~= parts.deep_view());
}

/// Appends the parts, with a comma between each two.
pub fn push_joined(out: &mut Vec<Token>, parts: &Vec<Vec<Token>>)
    ensures
        final(out).deep_view() == old(out).deep_view() + join_commas(parts.deep_view()),
{
    let mut i: usize = 0;
    assert(out.deep_view() =~= old(out).deep_view() + join_commas(
        parts.deep_view().subrange(0, 0),
    ));
    while i < parts.len()
        invariant
            i <= parts.len(),
            out.deep_view() == old(out).deep_view() + join_commas(
                parts.deep_view().subrange(0, i as int),
            ),
        decreases parts.len() - i,
    {
        if i > 0 {
            push_punct(out, ',', false);
        }
        append_tokens(out, &parts[i]);
        proof {
            lemma_join_next(parts.deep_view(), i as int);
            assert(out.deep_view() =~= old(out).deep_view() + join_commas(
                parts.deep_view().subrange(0, i + 1),
            ));
        }
        i += 1;
    }
    assert(parts.deep_view().subrange(0, parts.len() as int) =~= parts.deep_view());
}

/// Appends `::`.
fn push_path_sep(out: &mut Vec<Token>)
    ensures
        final(out).deep_view() == old(out).deep_view() + path_sep(),
{
    push_punct(out, ':', true);
    push_punct(out, ':', false);
    assert(out.deep_view() =~= old(out).deep_view() + path_sep());
}

/// Appends the path of an item of the argument parsing framework.
fn push_framework_path(out: &mut Vec<Token>, item: &str)
    ensures
        final(out).deep_view() == old(out).deep_view() + framework_path(item@),
{
    push_path_sep(out);
    push_word(out, "applause");
    push_path_sep(out);
    push_word(out, "clap");
    push_path_sep(out);
    push_word(out, item);
    assert(out.deep_view() =~= old(out).deep_view() + framework_path(item@));
}

/// Appends the attribute that derives an item of the framework, and
/// `Debug`.
fn push_derive_attr(out: &mut Vec<Token>, item: &str)
    ensures
        final(out).deep_view() == old(out).deep_view() + derive_attr(item@),
{
    push_punct(out, '#', false);
    push_open(out, Delim::Bracket);
    push_word(out, "derive");
    push_open(out, Delim::Parenthesis);
    push_framework_path(out, item);
    push_punct(out, ',', false);
    push_word(out, "Debug");
    push_close(out, Delim::Parenthesis);
    push_close(out, Delim::Bracket);
    assert(out.deep_view() =~= old(out).deep_view() + derive_attr(item@));
}

/// A name derived from `base` by the suffix `suffix`.
pub fn derive_name(base: &String, suffix: &str) -> (name: String)
    ensures
        name@ == derived_name(base@, suffix@),
{
    let mut name = base.clone();
    name.append(suffix);
    name
}

impl Field {
    /// The field as it was written.
    pub fn to_tokens(&self) -> (out: Vec<Token>)
        ensures
            out.deep_view() == self.deep_view().tokens(),
    {
        let mut out: Vec<Token> = Vec::new();
        push_all(&mut out, &self.attrs);
        push_word(&mut out, self.ident.as_str());
        push_punct(&mut out, ':', false);
        append_tokens(&mut out, &self.ty);
        assert(out.deep_view() =~= self.deep_view().tokens());
        out
    }
}

/// Each field as it was written.
fn fields_to_tokens(fields: &Vec<Field>) -> (parts: Vec<Vec<Token>>)
    ensures
        parts.deep_view() == field_list(fields.deep_view()),
{
    let mut parts: Vec<Vec<Token>> = Vec::new();
    let mut i: usize = 0;
    while i < fields.len()
        invariant
            i <= fields.len(),
            parts.len() == i,
            forall|k: int|
                0 <= k < i ==> (#[trigger] parts.deep_view()[k]) == fields.deep_view()[k].tokens(),
        decreases fields.len() - i,
    {
        let ghost before = parts.deep_view();
        let part = fields[i].to_tokens();
        parts.push(part);
        assert forall|k: int| 0 <= k < i + 1 implies (#[trigger] parts.deep_view()[k])
            == fields.deep_view()[k].tokens() by {
            if k < i {
                assert(parts.deep_view()[k] == before[k]);
            }
        }
        i += 1;
    }
    assert(parts.deep_view() =~= field_list(fields.deep_view()));
    parts
}

/// The name of each field.
fn fields_to_names(fields: &Vec<Field>) -> (parts: Vec<Vec<Token>>)
    ensures
        parts.deep_view() == field_names(fields.deep_view()),
{
    let mut parts: Vec<Vec<Token>> = Vec::new();
    let mut i: usize = 0;
    while i < fields.len()
        invariant
            i <= fields.len(),
            parts.len() == i,
            forall|k: int|
                0 <= k < i ==> (#[trigger] parts.deep_view()[k])
                    == fields.deep_view()[k].name_tokens(),
        decreases fields.len() - i,
    {
        let ghost before = parts.deep_view();
        let mut part: Vec<Token> = Vec::new();
        push_word(&mut part, fields[i].ident.as_str());
        assert(part.deep_view() =~= fields.deep_view()[i as int].name_tokens());
        parts.push(part);
        assert forall|k: int| 0 <= k < i + 1 implies (#[trigger] parts.deep_view()[k])
            == fields.deep_view()[k].name_tokens() by {
            if k < i {
                assert(parts.deep_view()[k] == before[k]);
            }
        }
        i += 1;
    }
    assert(parts.deep_view() =~= field_names(fields.deep_view()));
    parts
}

impl Fields {
    /// What a variant carries, as it is written in an enumeration.
    pub fn to_tokens(&self) -> (out: Vec<Token>)
        ensures
            out.deep_view() == self.deep_view().tokens(),
    {
        let mut out: Vec<Token> = Vec::new();
        match self {
            Fields::Unit => {},
            Fields::Named(fields) => {
                let parts = fields_to_tokens(fields);
                push_open(&mut out, Delim::Brace);
                push_joined(&mut out, &parts);
                push_close(&mut out, Delim::Brace);
            },
            Fields::Unnamed(ty) => {
                push_open(&mut out, Delim::Parenthesis);
                append_tokens(&mut out, ty);
                push_close(&mut out, Delim::Parenthesis);
            },
        }
        assert(out.deep_view() =~= self.deep_view().tokens());
        out
    }

    /// The pattern that binds what a variant carries.
    pub fn to_pat(&self) -> (out: Vec<Token>)
        ensures
            out.deep_view() == self.deep_view().pattern(),
    {
        let mut out: Vec<Token> = Vec::new();
        match self {
            Fields::Unit => {},
            Fields::Named(fields) => {
                let parts = fields_to_names(fields);
                push_open(&mut out, Delim::Brace);
                push_joined(&mut out, &parts);
                push_close(&mut out, Delim::Brace);
            },
            Fields::Unnamed(_) => {
                push_open(&mut out, Delim::Parenthesis);
                push_word(&mut out, "handler");
                push_close(&mut out, Delim::Parenthesis);
            },
        }
        assert(out.deep_view() =~= self.deep_view().pattern());
        out
    }
}

impl Variant2 {
    /// The variant as it stands in the enumeration.
    pub fn to_tokens(&self) -> (out: Vec<Token>)
        ensures
            out.deep_view() == self.deep_view().tokens(),
    {
        let mut out: Vec<Token> = Vec::new();
        push_all(&mut out, &self.attrs);
        push_word(&mut out, self.ident.as_str());
        let fields = self.fields.to_tokens();
        append_tokens(&mut out, &fields);
        assert(out.deep_view() =~= self.deep_view().tokens());
        out
    }

    /// The pattern that matches the variant and binds what it carries.
    pub fn to_pat(&self) -> (out: Vec<Token>)
        ensures
            out.deep_view() == self.deep_view().pattern(),
    {
        let mut out: Vec<Token> = Vec::new();
        push_word(&mut out, self.ident.as_str());
        let fields = self.fields.to_pat();
        append_tokens(&mut out, &fields);
        assert(out.deep_view() =~= self.deep_view().pattern());
        out
    }
}

/// The parts of a path: what stands before the name of its last segment,
/// that name, and the arguments of the last segment.
#[derive(Clone, Debug, PartialEq, Eq)]
pub struct PathParts {
    pub prefix: Vec<Token>,
    pub name: String,
    pub arguments: Vec<Token>,
}

impl DeepView for PathParts {
    type V = (Seq<Tok>, Seq<char>, Seq<Tok>);

    open spec fn deep_view(&self) -> (Seq<Tok>, Seq<char>, Seq<Tok>) {
        (self.prefix.deep_view(), self.name@, self.arguments.deep_view())
    }
}

impl Fields {
    /// The parts of the path that a variant's one type is, where `syn`
    /// reads the type as a path.
    pub fn delegate_target(&self) -> (parts: Option<PathParts>)
        ensures
            parts.deep_view() == crate::layout::delegate_target(self.deep_view()),
    {
        match self {
            Fields::Unnamed(ty) => {
                let text = render(ty);
                match split_type_path(text.as_str()) {
                    Some((prefix, name, arguments)) => Some(
                        PathParts {
                            prefix: stream_to_tokens(prefix),
                            name,
                            arguments: stream_to_tokens(arguments),
                        },
                    ),
                    None => None,
                }
            },
            _ => None,
        }
    }
}

/// A path beside the given one: its last name with `suffix` added.
fn sibling(parts: &PathParts, suffix: &str) -> (out: Vec<Token>)
    ensures
        out.deep_view() == sibling_path(
            parts.prefix.deep_view(),
            parts.name@,
            suffix@,
            parts.arguments.deep_view(),
        ),
{
    let mut out: Vec<Token> = Vec::new();
    append_tokens(&mut out, &parts.prefix);
    let derived = derive_name(&parts.name, suffix);
    push_word(&mut out, derived.as_str());
    append_tokens(&mut out, &parts.arguments);
    assert(out.deep_view() =~= sibling_path(
        parts.prefix.deep_view(),
        parts.name@,
        suffix@,
        parts.arguments.deep_view(),
    ));
    out
}

/// The arguments of a call of `run` that hands on the parameters `args`.
fn call_arguments(args: &Vec<Field>) -> (parts: Vec<Vec<Token>>)
    ensures
        parts.deep_view() == call_args(args.deep_view()),
{
    let mut first: Vec<Token> = Vec::new();
    push_punct(&mut first, '&', false);
    push_word(&mut first, "handler");
    push_punct(&mut first, '.', false);
    push_word(&mut first, "cmd");
    assert(first.deep_view() =~= payload_command());
    let mut parts: Vec<Vec<Token>> = Vec::new();
    parts.push(first);
    let mut names = fields_to_names(args);
    let ghost head = parts.deep_view();
    let ghost tail = names.deep_view();
    parts.append(&mut names);
    assert(parts.deep_view() =~= head + tail);
    assert(head =~= seq![payload_command()]);
    parts
}

/// The call of `run` of the declaration that the path names.
fn delegate(parts: &PathParts, args: &Vec<Field>) -> (out: Vec<Token>)
    ensures
        out.deep_view() == delegate_call(
            parts.prefix.deep_view(),
            parts.name@,
            parts.arguments.deep_view(),
            args.deep_view(),
        ),
{
    let mut out: Vec<Token> = Vec::new();
    let enum_path = sibling(parts, "Cmd");
    let trait_path = sibling(parts, "Run");
    let arguments = call_arguments(args);
    push_punct(&mut out, '<', false);
    append_tokens(&mut out, &enum_path);
    push_word(&mut out, "as");
    append_tokens(&mut out, &trait_path);
    push_punct(&mut out, '>', false);
    push_path_sep(&mut out);
    push_word(&mut out, "run");
    push_open(&mut out, Delim::Parenthesis);
    push_joined(&mut out, &arguments);
    push_close(&mut out, Delim::Parenthesis);
    assert(out.deep_view() =~= delegate_call(
        parts.prefix.deep_view(),
        parts.name@,
        parts.arguments.deep_view(),
        args.deep_view(),
    ));
    out
}

/// Appends `{ unimplemented!(); }`.
fn push_stub_body(out: &mut Vec<Token>)
    ensures
        final(out).deep_view() == old(out).deep_view() + stub_body(),
{
    push_open(out, Delim::Brace);
    push_word(out, "unimplemented");
    push_punct(out, '!', false);
    push_open(out, Delim::Parenthesis);
    push_close(out, Delim::Parenthesis);
    push_punct(out, ';', false);
    push_close(out, Delim::Brace);
    assert(out.deep_view() =~= old(out).deep_view() + stub_body());
}

impl CmdHandler {
    /// How the arm of this subcommand is made.
    pub fn behavior(&self) -> (b: Behavior)
        ensures
            b == self.deep_view().behavior(),
    {
        match &self.handler {
            Some(_) => Behavior::Inline,
            None => match self.enum_variant.fields.delegate_target() {
                Some(_) => Behavior::Delegate,
                None => Behavior::Stub,
            },
        }
    }

    /// The variant of this subcommand as it stands in the enumeration.
    pub fn get_enum_variant(&self) -> (out: Vec<Token>)
        ensures
            out.deep_view() == self.deep_view().enum_variant.tokens(),
    {
        self.enum_variant.to_tokens()
    }

    /// The body of the arm of this subcommand, where there is a handler or
    /// a declaration to hand on to; `args` are the extra parameters of
    /// `run`.
    pub fn get_impl(&self, args: &Vec<Field>) -> (out: Option<Vec<Token>>)
        ensures
            out.deep_view() == self.deep_view().body(args.deep_view()),
    {
        match &self.handler {
            Some(block) => {
                let mut out: Vec<Token> = Vec::new();
                append_tokens(&mut out, block);
                assert(out.deep_view() =~= block.deep_view());
                Some(out)
            },
            None => match self.enum_variant.fields.delegate_target() {
                Some(parts) => Some(delegate(&parts, args)),
                None => None,
            },
        }
    }

    /// The arm of this subcommand, from the variant's name on.
    pub fn to_arm(&self, args: &Vec<Field>) -> (out: Vec<Token>)
        ensures
            out.deep_view() == self.deep_view().arm(args.deep_view()),
    {
        let mut out = self.enum_variant.to_pat();
        push_punct(&mut out, '=', true);
        push_punct(&mut out, '>', false);
        match self.get_impl(args) {
            Some(body) => {
                append_tokens(&mut out, &body);
            },
            None => {
                push_stub_body(&mut out);
            },
        }
        assert(out.deep_view() =~= self.deep_view().arm(args.deep_view()));
        out
    }
}

impl Commands {
    /// The variants of the enumeration.
    pub fn to_variants(&self) -> (parts: Vec<Vec<Token>>)
        ensures
            parts.deep_view() == self.deep_view().variants(),
    {
        let mut parts: Vec<Vec<Token>> = Vec::new();
        let mut i: usize = 0;
        while i < self.commands.len()
            invariant
                i <= self.commands.len(),
                parts.len() == i,
                forall|k: int|
                    0 <= k < i ==> (#[trigger] parts.deep_view()[k])
                        == self.deep_view().commands[k].enum_variant.tokens(),
            decreases self.commands.len() - i,
        {
            let ghost before = parts.deep_view();
            let part = self.commands[i].get_enum_variant();
            parts.push(part);
            assert forall|k: int| 0 <= k < i + 1 implies (#[trigger] parts.deep_view()[k])
                == self.deep_view().commands[k].enum_variant.tokens() by {
                if k < i {
                    assert(parts.deep_view()[k] == before[k]);
                }
            }
            i += 1;
        }
        assert(parts.deep_view() =~= self.deep_view().variants());
        parts
    }

    /// The arms of the dispatch, each from the variant's name on; `args`
    /// are the extra parameters of `run`.
    pub fn impls(&self, args: &Vec<Field>) -> (parts: Vec<Vec<Token>>)
        ensures
            parts.deep_view() == self.deep_view().arms(args.deep_view()),
    {
        let mut parts: Vec<Vec<Token>> = Vec::new();
        let mut i: usize = 0;
        while i < self.commands.len()
            invariant
                i <= self.commands.len(),
                parts.len() == i,
                forall|k: int|
                    0 <= k < i ==> (#[trigger] parts.deep_view()[k])
                        == self.deep_view().commands[k].arm(args.deep_view()),
            decreases self.commands.len() - i,
        {
            let ghost before = parts.deep_view();
            let part = self.commands[i].to_arm(args);
            parts.push(part);
            assert forall|k: int| 0 <= k < i + 1 implies (#[trigger] parts.deep_view()[k])
                == self.deep_view().commands[k].arm(args.deep_view()) by {
                if k < i {
                    assert(parts.deep_view()[k] == before[k]);
                }
            }
            i += 1;
        }
        assert(parts.deep_view() =~= self.deep_view().arms(args.deep_view()));
        parts
    }
}

/// The arms as they stand in the `match`: each behind `Self::`.
fn qualify_arms(arms: &Vec<Vec<Token>>) -> (parts: Vec<Vec<Token>>)
    ensures
        parts.deep_view() == qualified_arms(arms.deep_view()),
{
    let mut parts: Vec<Vec<Token>> = Vec::new();
    let mut i: usize = 0;
    while i < arms.len()
        invariant
            i <= arms.len(),
            parts.len() == i,
            forall|k: int|
                0 <= k < i ==> (#[trigger] parts.deep_view()[k]) == seq![word("Self"@)]
                    + path_sep() + arms.deep_view()[k],
        decreases arms.len() - i,
    {
        let ghost before = parts.deep_view();
        let mut part: Vec<Token> = Vec::new();
        push_word(&mut part, "Self");
        push_path_sep(&mut part);
        append_tokens(&mut part, &arms[i]);
        assert(part.deep_view() =~= seq![word("Self"@)] + path_sep() + arms.deep_view()[i as int]);
        parts.push(part);
        assert forall|k: int| 0 <= k < i + 1 implies (#[trigger] parts.deep_view()[k]) == seq![
            word("Self"@),
        ] + path_sep() + arms.deep_view()[k] by {
            if k < i {
                assert(parts.deep_view()[k] == before[k]);
            }
        }
        i += 1;
    }
    assert(parts.deep_view() =~= qualified_arms(arms.deep_view()));
    parts
}

/// The five pieces of code that are emitted for a declaration.
#[derive(Clone, Debug, PartialEq, Eq)]
pub struct Artifacts {
    /// The alias that gives the parser the declaration's own name.
    pub type_alias: Vec<Token>,
    /// The parser structure.
    pub parser_struct: Vec<Token>,
    /// The dispatch trait.
    pub dispatch_trait: Vec<Token>,
    /// The subcommand enumeration.
    pub subcmd_enum: Vec<Token>,
    /// The implementation of the dispatch trait for the enumeration.
    pub subcmd_impl: Vec<Token>,
}

/// The value of an [`Artifacts`].
pub struct ArtifactsView {
    pub type_alias: Seq<Tok>,
    pub parser_struct: Seq<Tok>,
    pub dispatch_trait: Seq<Tok>,
    pub subcmd_enum: Seq<Tok>,
    pub subcmd_impl: Seq<Tok>,
}

impl DeepView for Artifacts {
    type V = ArtifactsView;

    open spec fn deep_view(&self) -> ArtifactsView {
        ArtifactsView {
            type_alias: self.type_alias.deep_view(),
            parser_struct: self.parser_struct.deep_view(),
            dispatch_trait: self.dispatch_trait.deep_view(),
            subcmd_enum: self.subcmd_enum.deep_view(),
            subcmd_impl: self.subcmd_impl.deep_view(),
        }
    }
}

impl ArtifactsView {
    /// The five pieces, one after the other.
    pub open spec fn concat(self) -> Seq<Tok> {
        self.type_alias + self.parser_struct + self.dispatch_trait + self.subcmd_enum
            + self.subcmd_impl
    }
}

impl ClapArgsWithSubsView {
    /// The five pieces of code that are emitted for the declaration.
    pub open spec fn emit(self) -> ArtifactsView {
        ArtifactsView {
            type_alias: self.type_alias(),
            parser_struct: self.parser_struct(),
            dispatch_trait: self.dispatch_trait(),
            subcmd_enum: self.subcmd_enum(),
            subcmd_impl: self.subcmd_impl(),
        }
    }
}

impl Artifacts {
    /// The five pieces, one after the other.
    pub fn concat(&self) -> (out: Vec<Token>)
        ensures
            out.deep_view() == self.deep_view().concat(),
    {
        let mut out: Vec<Token> = Vec::new();
        append_tokens(&mut out, &self.type_alias);
        append_tokens(&mut out, &self.parser_struct);
        append_tokens(&mut out, &self.dispatch_trait);
        append_tokens(&mut out, &self.subcmd_enum);
        append_tokens(&mut out, &self.subcmd_impl);
        assert(out.deep_view() =~= self.deep_view().concat());
        out
    }
}

impl ClapArgsWithSubs {
    /// The name of the parser structure.
    pub fn struct_ident(&self) -> (name: String)
        ensures
            name@ == self.deep_view().struct_ident(),
    {
        derive_name(&self.parser.ident, "Parser")
    }

    /// The name of the subcommand enumeration.
    pub fn subcmd_enum_ident(&self) -> (name: String)
        ensures
            name@ == self.deep_view().subcmd_enum_ident(),
    {
        derive_name(&self.parser.ident, "Cmd")
    }

    /// The name of the dispatch trait.
    pub fn trait_ident(&self) -> (name: String)
        ensures
            name@ == self.deep_view().trait_ident(),
    {
        derive_name(&self.parser.ident, "Run")
    }

    /// The parameters of `run`: the receiver, then the extra parameters as
    /// they were declared.
    pub fn trait_args(&self) -> (parts: Vec<Vec<Token>>)
        ensures
            parts.deep_view() == self.deep_view().trait_args(),
    {
        let mut first: Vec<Token> = Vec::new();
        push_punct(&mut first, '&', false);
        push_word(&mut first, "self");
        assert(first.deep_view() =~= receiver());
        let mut parts: Vec<Vec<Token>> = Vec::new();
        parts.push(first);
        let ghost head = parts.deep_view();
        assert(head =~= seq![receiver()]);
        match &self.trait_args {
            Some(trait_args) => {
                let mut declared = fields_to_tokens(&trait_args.args);
                let ghost tail = declared.deep_view();
                parts.append(&mut declared);
                assert(parts.deep_view() =~= head + tail);
            },
            None => {
                assert(field_list(Seq::empty()) =~= Seq::<Seq<Tok>>::empty());
                assert(parts.deep_view() =~= head + field_list(Seq::empty()));
            },
        }
        parts
    }

    /// The alias that gives the parser the declaration's own name.
    pub fn type_alias(&self) -> (out: Vec<Token>)
        ensures
            out.deep_view() == self.deep_view().type_alias(),
    {
        let struct_ident = self.struct_ident();
        let subcmd_enum = self.subcmd_enum_ident();
        let mut out: Vec<Token> = Vec::new();
        push_word(&mut out, "pub");
        push_word(&mut out, "type");
        push_word(&mut out, self.parser.ident.as_str());
        push_punct(&mut out, '=', false);
        push_word(&mut out, struct_ident.as_str());
        push_punct(&mut out, '<', false);
        push_word(&mut out, subcmd_enum.as_str());
        push_punct(&mut out, '>', false);
        push_punct(&mut out, ';', false);
        assert(out.deep_view() =~= self.deep_view().type_alias());
        out
    }

    /// Appends the head of the parser structure.
    fn push_struct_head(&self, out: &mut Vec<Token>)
        ensures
            final(out).deep_view() == old(out).deep_view() + self.deep_view().struct_head(),
    {
        let name = self.struct_ident();
        let trait_ident = self.trait_ident();
        push_word(out, "pub");
        push_word(out, "struct");
        push_word(out, name.as_str());
        push_punct(out, '<', false);
        push_word(out, "T");
        push_punct(out, '>', false);
        push_word(out, "where");
        push_word(out, "T");
        push_punct(out, ':', false);
        push_framework_path(out, "Subcommand");
        push_punct(out, '+', false);
        push_word(out, trait_ident.as_str());
        assert(out.deep_view() =~= old(out).deep_view() + self.deep_view().struct_head());
    }

    /// Appends what the braces of the parser structure hold.
    fn push_struct_body(&self, out: &mut Vec<Token>)
        ensures
            final(out).deep_view() == old(out).deep_view() + self.deep_view().struct_body(),
    {
        let fields = fields_to_tokens(&self.parser.fields);
        push_punct(out, '#', false);
        push_open(out, Delim::Bracket);
        push_word(out, "clap");
        push_open(out, Delim::Parenthesis);
        push_word(out, "subcommand");
        push_close(out, Delim::Parenthesis);
        push_close(out, Delim::Bracket);
        push_word(out, "pub");
        push_word(out, "cmd");
        push_punct(out, ':', false);
        push_word(out, "T");
        push_punct(out, ',', false);
        push_joined(out, &fields);
        assert(out.deep_view() =~= old(out).deep_view() + self.deep_view().struct_body());
    }

    /// The parser structure, with the declaration's attributes on it.
    pub fn parser_struct(&self) -> (out: Vec<Token>)
        ensures
            out.deep_view() == self.deep_view().parser_struct(),
    {
        let mut out: Vec<Token> = Vec::new();
        push_derive_attr(&mut out, "Parser");
        push_all(&mut out, &self.parser.attrs);
        self.push_struct_head(&mut out);
        push_open(&mut out, Delim::Brace);
        self.push_struct_body(&mut out);
        push_close(&mut out, Delim::Brace);
        assert(out.deep_view() =~= self.deep_view().parser_struct());
        out
    }

    /// Appends `fn run(&self, ...)`.
    fn push_run_signature(&self, out: &mut Vec<Token>)
        ensures
            final(out).deep_view() == old(out).deep_view() + self.deep_view().run_signature(),
    {
        let args = self.trait_args();
        push_word(out, "fn");
        push_word(out, "run");
        push_open(out, Delim::Parenthesis);
        push_joined(out, &args);
        push_close(out, Delim::Parenthesis);
        assert(out.deep_view() =~= old(out).deep_view() + self.deep_view().run_signature());
    }

    /// The dispatch trait: one method, `run`, and `Debug` asked of every
    /// implementer.
    pub fn dispatch_trait(&self) -> (out: Vec<Token>)
        ensures
            out.deep_view() == self.deep_view().dispatch_trait(),
    {
        let name = self.trait_ident();
        let mut out: Vec<Token> = Vec::new();
        push_word(&mut out, "pub");
        push_word(&mut out, "trait");
        push_word(&mut out, name.as_str());
        push_punct(&mut out, ':', false);
        push_path_sep(&mut out);
        push_word(&mut out, "core");
        push_path_sep(&mut out);
        push_word(&mut out, "fmt");
        push_path_sep(&mut out);
        push_word(&mut out, "Debug");
        push_open(&mut out, Delim::Brace);
        self.push_run_signature(&mut out);
        push_punct(&mut out, '-', true);
        push_punct(&mut out, '>', false);
        push_open(&mut out, Delim::Parenthesis);
        push_close(&mut out, Delim::Parenthesis);
        push_punct(&mut out, ';', false);
        push_close(&mut out, Delim::Brace);
        assert(out.deep_view() =~= self.deep_view().dispatch_trait());
        out
    }

    /// The subcommand enumeration, one variant for each subcommand.
    pub fn subcmd_enum(&self) -> (out: Vec<Token>)
        ensures
            out.deep_view() == self.deep_view().subcmd_enum(),
    {
        let enum_ident = self.subcmd_enum_ident();
        let enum_vars = self.commands.to_variants();
        let mut out: Vec<Token> = Vec::new();
        push_derive_attr(&mut out, "Subcommand");
        push_word(&mut out, "pub");
        push_word(&mut out, "enum");
        push_word(&mut out, enum_ident.as_str());
        push_open(&mut out, Delim::Brace);
        push_joined(&mut out, &enum_vars);
        push_close(&mut out, Delim::Brace);
        assert(out.deep_view() =~= self.deep_view().subcmd_enum());
        out
    }

    /// Appends the `match` that dispatches on the subcommand.
    fn push_dispatch_match(&self, out: &mut Vec<Token>)
        ensures
            final(out).deep_view() == old(out).deep_view() + self.deep_view().dispatch_match(),
    {
        let none: Vec<Field> = Vec::new();
        assert(none.deep_view() =~= Seq::empty());
        let args = match &self.trait_args {
            Some(trait_args) => &trait_args.args,
            None => &none,
        };
        assert(args.deep_view() == self.deep_view().extra_args());
        let impls = self.commands.impls(args);
        let arms = qualify_arms(&impls);
        push_word(out, "match");
        push_punct(out, '&', false);
        push_word(out, "self");
        push_open(out, Delim::Brace);
        push_joined(out, &arms);
        push_close(out, Delim::Brace);
        assert(out.deep_view() =~= old(out).deep_view() + self.deep_view().dispatch_match());
    }

    /// The implementation of the dispatch trait for the enumeration.
    pub fn subcmd_impl(&self) -> (out: Vec<Token>)
        ensures
            out.deep_view() == self.deep_view().subcmd_impl(),
    {
        let trait_ident = self.trait_ident();
        let enum_ident = self.subcmd_enum_ident();
        let mut out: Vec<Token> = Vec::new();
        push_punct(&mut out, '#', false);
        push_open(&mut out, Delim::Bracket);
        push_word(&mut out, "allow");
        push_open(&mut out, Delim::Parenthesis);
        push_word(&mut out, "unused_variables");
        push_close(&mut out, Delim::Parenthesis);
        push_close(&mut out, Delim::Bracket);
        push_word(&mut out, "impl");
        push_word(&mut out, trait_ident.as_str());
        push_word(&mut out, "for");
        push_word(&mut out, enum_ident.as_str());
        push_open(&mut out, Delim::Brace);
        self.push_run_signature(&mut out);
        push_open(&mut out, Delim::Brace);
        self.push_dispatch_match(&mut out);
        push_close(&mut out, Delim::Brace);
        push_close(&mut out, Delim::Brace);
        assert(out.deep_view() =~= self.deep_view().subcmd_impl());
        out
    }

    /// The five pieces of code that are emitted for the declaration.
    pub fn emit(&self) -> (artifacts: Artifacts)
        ensures
            artifacts.deep_view() == self.deep_view().emit(),
    {
        Artifacts {
            type_alias: self.type_alias(),
            parser_struct: self.parser_struct(),
            dispatch_trait: self.dispatch_trait(),
            subcmd_enum: self.subcmd_enum(),
            subcmd_impl: self.subcmd_impl(),
        }
    }

    /// All that is emitted for the declaration, as one token sequence.
    pub fn to_tokens(&self) -> (out: Vec<Token>)
        ensures
            out.deep_view() == self.deep_view().to_tokens(),
    {
        self.emit().concat()
    }
}

} // verus!
