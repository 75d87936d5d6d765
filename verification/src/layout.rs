//! What is emitted, as token sequences computed from the values of the
//! syntax tree. The emitter's contracts are stated in these functions.
//!
//! Three names are derived from the name of the declaration: that of the
//! parser structure, that of the subcommand enumeration and that of the
//! dispatch trait. Every piece of emitted code that refers to one of them
//! takes it from the same function.

use vstd::prelude::*;
use crate::token::{Delim, Tok, render_spec};
use crate::syntax::path_parts;
use crate::ast::{
    ClapArgsWithSubsView, CmdHandlerView, CommandsView, FieldView, FieldsView, Variant2View,
};

verus! {

/// The word `text` as a token.
pub open spec fn word(text: Seq<char>) -> Tok {
    Tok::Ident(text)
}

/// The punctuation character `c`, not joined to what follows.
pub open spec fn alone(c: char) -> Tok {
    Tok::Punct(c, false)
}

/// The punctuation character `c`, joined to the one that follows.
pub open spec fn joint(c: char) -> Tok {
    Tok::Punct(c, true)
}

/// `::`
pub open spec fn path_sep() -> Seq<Tok> {
    seq![joint(':'), alone(':')]
}

/// `=>`
pub open spec fn fat_arrow() -> Seq<Tok> {
    seq![joint('='), alone('>')]
}

/// The tokens `inner` in the brackets `d`.
pub open spec fn group(d: Delim, inner: Seq<Tok>) -> Seq<Tok> {
    seq![Tok::Open(d)] + inner + seq![Tok::Close(d)]
}

/// The parts, one after the other.
pub open spec fn concat_all(parts: Seq<Seq<Tok>>) -> Seq<Tok>
    decreases parts.len(),
{
    if parts.len() == 0 {
        Seq::empty()
    } else {
        concat_all(parts.drop_last()) + parts.last()
    }
}

/// The parts, one after the other, with a comma between each two.
pub open spec fn join_commas(parts: Seq<Seq<Tok>>) -> Seq<Tok>
    decreases parts.len(),
{
    if parts.len() == 0 {
        Seq::empty()
    } else if parts.len() == 1 {
        parts[0]
    } else {
        join_commas(parts.drop_last()) + seq![alone(',')] + parts.last()
    }
}

/// A name derived from `base` by the suffix `suffix`.
pub open spec fn derived_name(base: Seq<char>, suffix: Seq<char>) -> Seq<char> {
    base + suffix
}

/// The suffix of the names of parser structures.
pub open spec fn parser_suffix() -> Seq<char> {
    "Parser"@
}

/// The suffix of the names of subcommand enumerations.
pub open spec fn enum_suffix() -> Seq<char> {
    "Cmd"@
}

/// The suffix of the names of dispatch traits.
pub open spec fn trait_suffix() -> Seq<char> {
    "Run"@
}

/// `::applause::clap::` and the name of an item of the argument parsing
/// framework.
pub open spec fn framework_path(item: Seq<char>) -> Seq<Tok> {
    path_sep() + seq![word("applause"@)] + path_sep() + seq![word("clap"@)] + path_sep() + seq![
        word(item),
    ]
}

/// `#[derive(::applause::clap::ITEM, Debug)]`
pub open spec fn derive_attr(item: Seq<char>) -> Seq<Tok> {
    seq![alone('#')] + group(
        Delim::Bracket,
        seq![word("derive"@)] + group(
            Delim::Parenthesis,
            framework_path(item) + seq![alone(','), word("Debug"@)],
        ),
    )
}

/// `&self`
pub open spec fn receiver() -> Seq<Tok> {
    seq![alone('&'), word("self"@)]
}

/// The name to which an arm binds the value of a variant with one type.
pub open spec fn payload_name() -> Seq<char> {
    "handler"@
}

/// `&handler.cmd`: the active subcommand of the value that the arm bound.
pub open spec fn payload_command() -> Seq<Tok> {
    seq![alone('&'), word(payload_name()), alone('.'), word("cmd"@)]
}

/// `{ unimplemented!(); }`
pub open spec fn stub_body() -> Seq<Tok> {
    group(
        Delim::Brace,
        seq![word("unimplemented"@), alone('!')] + group(Delim::Parenthesis, Seq::empty()) + seq![
            alone(';'),
        ],
    )
}

/// A path beside the one that `syn` read: `prefix`, then `name` with
/// `suffix` added, then the `arguments` of the last segment as they were.
pub open spec fn sibling_path(
    prefix: Seq<Tok>,
    name: Seq<char>,
    suffix: Seq<char>,
    arguments: Seq<Tok>,
) -> Seq<Tok> {
    prefix + seq![word(derived_name(name, suffix))] + arguments
}

/// How the arm of a subcommand is made.
#[derive(Clone, Copy, Debug, PartialEq, Eq, Structural)]
pub enum Behavior {
    /// The handler that was written is the arm's body.
    Inline,
    /// The arm calls `run` of the declaration that the variant's type names.
    Delegate,
    /// The arm fails when it is reached.
    Stub,
}

impl FieldView {
    /// The field as it was written: attributes, name, `:` and type.
    pub open spec fn tokens(self) -> Seq<Tok> {
        concat_all(self.attrs) + seq![word(self.ident), alone(':')] + self.ty
    }

    /// The field's name alone.
    pub open spec fn name_tokens(self) -> Seq<Tok> {
        seq![word(self.ident)]
    }
}

/// Each field as it was written.
pub open spec fn field_list(fields: Seq<FieldView>) -> Seq<Seq<Tok>> {
    Seq::new(fields.len(), |i: int| fields[i].tokens())
}

/// The name of each field.
pub open spec fn field_names(fields: Seq<FieldView>) -> Seq<Seq<Tok>> {
    Seq::new(fields.len(), |i: int| fields[i].name_tokens())
}

impl FieldsView {
    /// What a variant carries, as it is written in an enumeration.
    pub open spec fn tokens(self) -> Seq<Tok> {
        match self {
            FieldsView::Unit => Seq::empty(),
            FieldsView::Named(fields) => group(Delim::Brace, join_commas(field_list(fields))),
            FieldsView::Unnamed(ty) => group(Delim::Parenthesis, ty),
        }
    }

    /// The pattern that binds what a variant carries: every named field
    /// under its own name, a single value under one fixed name.
    pub open spec fn pattern(self) -> Seq<Tok> {
        match self {
            FieldsView::Unit => Seq::empty(),
            FieldsView::Named(fields) => group(Delim::Brace, join_commas(field_names(fields))),
            FieldsView::Unnamed(_) => group(Delim::Parenthesis, seq![word(payload_name())]),
        }
    }
}

impl Variant2View {
    /// The variant as it stands in the enumeration.
    pub open spec fn tokens(self) -> Seq<Tok> {
        concat_all(self.attrs) + seq![word(self.ident)] + self.fields.tokens()
    }

    /// The pattern that matches the variant and binds what it carries.
    pub open spec fn pattern(self) -> Seq<Tok> {
        seq![word(self.ident)] + self.fields.pattern()
    }
}

/// The arguments of a call of `run` that hands on the parameters `args`:
/// the active subcommand of the bound value, then each parameter by name.
pub open spec fn call_args(args: Seq<FieldView>) -> Seq<Seq<Tok>> {
    seq![payload_command()] + field_names(args)
}

/// The call of `run` of the declaration that a path names, handing on the
/// parameters `args`. The path is given by its parts: what stands before the
/// name of its last segment, that name, and the arguments of the last
/// segment. The trait and the enumeration of the call carry the names that
/// the declaration of that name derives.
pub open spec fn delegate_call(
    prefix: Seq<Tok>,
    name: Seq<char>,
    arguments: Seq<Tok>,
    args: Seq<FieldView>,
) -> Seq<Tok> {
    seq![alone('<')] + sibling_path(prefix, name, enum_suffix(), arguments) + seq![word("as"@)]
        + sibling_path(prefix, name, trait_suffix(), arguments) + seq![alone('>')] + path_sep()
        + seq![word("run"@)] + group(Delim::Parenthesis, join_commas(call_args(args)))
}

/// The parts of the path that a variant's one type is, where `syn` reads
/// the type as a path.
pub open spec fn delegate_target(fields: FieldsView) -> Option<(Seq<Tok>, Seq<char>, Seq<Tok>)> {
    match fields {
        FieldsView::Unnamed(ty) => path_parts(render_spec(ty)),
        _ => None,
    }
}

impl CmdHandlerView {
    /// How the arm of this subcommand is made: a handler is taken as it is;
    /// without one, a variant that carries one value of a type that `syn`
    /// reads as a path hands on to the declaration that the path names;
    /// anything else fails when it is reached.
    pub open spec fn behavior(self) -> Behavior {
        if self.handler is Some {
            Behavior::Inline
        } else if delegate_target(self.enum_variant.fields) is Some {
            Behavior::Delegate
        } else {
            Behavior::Stub
        }
    }

    /// The body of the arm, where there is a handler or a declaration to
    /// hand on to.
    pub open spec fn body(self, args: Seq<FieldView>) -> Option<Seq<Tok>> {
        match self.handler {
            Some(block) => Some(block),
            None => match delegate_target(self.enum_variant.fields) {
                Some((prefix, name, arguments)) => Some(
                    delegate_call(prefix, name, arguments, args),
                ),
                None => None,
            },
        }
    }

    /// The arm of this subcommand, from the variant's name on.
    pub open spec fn arm(self, args: Seq<FieldView>) -> Seq<Tok> {
        self.enum_variant.pattern() + fat_arrow() + match self.body(args) {
            Some(body) => body,
            None => stub_body(),
        }
    }
}

impl CommandsView {
    /// The variants of the enumeration.
    pub open spec fn variants(self) -> Seq<Seq<Tok>> {
        Seq::new(self.commands.len(), |i: int| self.commands[i].enum_variant.tokens())
    }

    /// The arms of the dispatch, each from the variant's name on.
    pub open spec fn arms(self, args: Seq<FieldView>) -> Seq<Seq<Tok>> {
        Seq::new(self.commands.len(), |i: int| self.commands[i].arm(args))
    }
}

/// The arms as they stand in the `match`: each behind `Self::`.
pub open spec fn qualified_arms(arms: Seq<Seq<Tok>>) -> Seq<Seq<Tok>> {
    Seq::new(arms.len(), |i: int| seq![word("Self"@)] + path_sep() + arms[i])
}

impl ClapArgsWithSubsView {
    /// The name of the parser structure.
    pub open spec fn struct_ident(self) -> Seq<char> {
        derived_name(self.parser.ident, parser_suffix())
    }

    /// The name of the subcommand enumeration.
    pub open spec fn subcmd_enum_ident(self) -> Seq<char> {
        derived_name(self.parser.ident, enum_suffix())
    }

    /// The name of the dispatch trait.
    pub open spec fn trait_ident(self) -> Seq<char> {
        derived_name(self.parser.ident, trait_suffix())
    }

    /// The extra parameters of `run`; none where the declaration has no
    /// section for them.
    pub open spec fn extra_args(self) -> Seq<FieldView> {
        match self.trait_args {
            Some(trait_args) => trait_args.args,
            None => Seq::empty(),
        }
    }

    /// The parameters of `run`: the receiver, then the extra parameters as
    /// they were declared.
    pub open spec fn trait_args(self) -> Seq<Seq<Tok>> {
        seq![receiver()] + field_list(self.extra_args())
    }

    /// `pub type NAME = NAMEParser<NAMECmd>;`
    pub open spec fn type_alias(self) -> Seq<Tok> {
        seq![
            word("pub"@),
            word("type"@),
            word(self.parser.ident),
            alone('='),
            word(self.struct_ident()),
            alone('<'),
            word(self.subcmd_enum_ident()),
            alone('>'),
            alone(';'),
        ]
    }

    /// The head of the parser structure, after its attributes:
    /// `pub struct NAMEParser<T> where T: ::applause::clap::Subcommand + NAMERun`
    pub open spec fn struct_head(self) -> Seq<Tok> {
        seq![
            word("pub"@),
            word("struct"@),
            word(self.struct_ident()),
            alone('<'),
            word("T"@),
            alone('>'),
            word("where"@),
            word("T"@),
            alone(':'),
        ] + framework_path("Subcommand"@) + seq![alone('+'), word(self.trait_ident())]
    }

    /// The field of the parser structure that holds the active subcommand:
    /// `#[clap(subcommand)] pub cmd: T`
    pub open spec fn command_field() -> Seq<Tok> {
        seq![alone('#')] + group(
            Delim::Bracket,
            seq![word("clap"@)] + group(Delim::Parenthesis, seq![word("subcommand"@)]),
        ) + seq![word("pub"@), word("cmd"@), alone(':'), word("T"@)]
    }

    /// What the braces of the parser structure hold: the field of the active
    /// subcommand, a comma, and the shared options with a comma between each
    /// two.
    pub open spec fn struct_body(self) -> Seq<Tok> {
        Self::command_field() + seq![alone(',')] + join_commas(field_list(self.parser.fields))
    }

    /// The parser structure, with the declaration's attributes on it.
    pub open spec fn parser_struct(self) -> Seq<Tok> {
        derive_attr("Parser"@) + concat_all(self.parser.attrs) + self.struct_head() + group(
            Delim::Brace,
            self.struct_body(),
        )
    }

    /// `fn run(&self, ...)`
    pub open spec fn run_signature(self) -> Seq<Tok> {
        seq![word("fn"@), word("run"@)] + group(Delim::Parenthesis, join_commas(self.trait_args()))
    }

    /// `pub trait NAMERun: ::core::fmt::Debug { fn run(&self, ...) -> (); }`
    pub open spec fn dispatch_trait(self) -> Seq<Tok> {
        seq![word("pub"@), word("trait"@), word(self.trait_ident()), alone(':')] + path_sep()
            + seq![word("core"@)] + path_sep() + seq![word("fmt"@)] + path_sep() + seq![
            word("Debug"@),
        ] + group(
            Delim::Brace,
            self.run_signature() + seq![joint('-'), alone('>')] + group(
                Delim::Parenthesis,
                Seq::empty(),
            ) + seq![alone(';')],
        )
    }

    /// The subcommand enumeration, one variant for each subcommand.
    pub open spec fn subcmd_enum(self) -> Seq<Tok> {
        derive_attr("Subcommand"@) + seq![word("pub"@), word("enum"@), word(self.subcmd_enum_ident())]
            + group(Delim::Brace, join_commas(self.commands.variants()))
    }

    /// `match &self { Self::..., ... }`
    pub open spec fn dispatch_match(self) -> Seq<Tok> {
        seq![word("match"@), alone('&'), word("self"@)] + group(
            Delim::Brace,
            join_commas(qualified_arms(self.commands.arms(self.extra_args()))),
        )
    }

    /// The implementation of the dispatch trait for the enumeration.
    pub open spec fn subcmd_impl(self) -> Seq<Tok> {
        seq![alone('#')] + group(
            Delim::Bracket,
            seq![word("allow"@)] + group(Delim::Parenthesis, seq![word("unused_variables"@)]),
        ) + seq![
            word("impl"@),
            word(self.trait_ident()),
            word("for"@),
            word(self.subcmd_enum_ident()),
        ] + group(
            Delim::Brace,
            self.run_signature() + group(Delim::Brace, self.dispatch_match()),
        )
    }

    /// All that is emitted for the declaration: the alias, the parser
    /// structure, the dispatch trait, the enumeration and the
    /// implementation, in this order.
    pub open spec fn to_tokens(self) -> Seq<Tok> {
        self.type_alias() + self.parser_struct() + self.dispatch_trait() + self.subcmd_enum()
            + self.subcmd_impl()
    }
}

} // verus!
