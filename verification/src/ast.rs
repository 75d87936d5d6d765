//! The syntax tree of a declaration. Each type has a mathematical value,
//! its deep view, in which the contracts of the parser and of the emitter are
//! stated.

use vstd::prelude::*;
use crate::token::{Token, Tok, render_spec};
use crate::syntax::{is_attributes_text, is_block_text, is_ident_text, is_type_text};

verus! {

/// A named field: its attributes, its name and the tokens of its type.
#[derive(Clone, Debug, PartialEq, Eq)]
pub struct Field {
    pub attrs: Vec<Vec<Token>>,
    pub ident: String,
    pub ty: Vec<Token>,
}

/// The value of a [`Field`].
pub struct FieldView {
    pub attrs: Seq<Seq<Tok>>,
    pub ident: Seq<char>,
    pub ty: Seq<Tok>,
}

impl DeepView for Field {
    type V = FieldView;

    open spec fn deep_view(&self) -> FieldView {
        FieldView {
            attrs: self.attrs.deep_view(),
            ident: self.ident@,
            ty: self.ty.deep_view(),
        }
    }
}

/// What a subcommand carries: nothing, named fields, or one value of one
/// type.
#[derive(Clone, Debug, PartialEq, Eq)]
pub enum Fields {
    Unit,
    Named(Vec<Field>),
    Unnamed(Vec<Token>),
}

/// The value of a [`Fields`].
pub enum FieldsView {
    Unit,
    Named(Seq<FieldView>),
    Unnamed(Seq<Tok>),
}

impl DeepView for Fields {
    type V = FieldsView;

    open spec fn deep_view(&self) -> FieldsView {
        match self {
            Fields::Unit => FieldsView::Unit,
            Fields::Named(fields) => FieldsView::Named(fields.deep_view()),
            Fields::Unnamed(ty) => FieldsView::Unnamed(ty.deep_view()),
        }
    }
}

/// A variant of the subcommand enumeration: like a variant of a Rust enum,
/// without a discriminant.
#[derive(Clone, Debug, PartialEq, Eq)]
pub struct Variant2 {
    pub attrs: Vec<Vec<Token>>,
    pub ident: String,
    pub fields: Fields,
}

/// The value of a [`Variant2`].
pub struct Variant2View {
    pub attrs: Seq<Seq<Tok>>,
    pub ident: Seq<char>,
    pub fields: FieldsView,
}

impl DeepView for Variant2 {
    type V = Variant2View;

    open spec fn deep_view(&self) -> Variant2View {
        Variant2View {
            attrs: self.attrs.deep_view(),
            ident: self.ident@,
            fields: self.fields.deep_view(),
        }
    }
}

/// A subcommand: its variant and, where one was written, the block that
/// handles it, braces included.
#[derive(Clone, Debug, PartialEq, Eq)]
pub struct CmdHandler {
    pub enum_variant: Variant2,
    pub handler: Option<Vec<Token>>,
}

/// The value of a [`CmdHandler`].
pub struct CmdHandlerView {
    pub enum_variant: Variant2View,
    pub handler: Option<Seq<Tok>>,
}

impl DeepView for CmdHandler {
    type V = CmdHandlerView;

    open spec fn deep_view(&self) -> CmdHandlerView {
        CmdHandlerView {
            enum_variant: self.enum_variant.deep_view(),
            handler: self.handler.deep_view(),
        }
    }
}

/// The subcommands, in the order in which they were written.
#[derive(Clone, Debug, PartialEq, Eq)]
pub struct Commands {
    pub commands: Vec<CmdHandler>,
}

/// The value of a [`Commands`].
pub struct CommandsView {
    pub commands: Seq<CmdHandlerView>,
}

impl DeepView for Commands {
    type V = CommandsView;

    open spec fn deep_view(&self) -> CommandsView {
        CommandsView { commands: self.commands.deep_view() }
    }
}

/// The parameters that every `run` takes besides its receiver.
#[derive(Clone, Debug, PartialEq, Eq)]
pub struct TraitArgs {
    pub args: Vec<Field>,
}

/// The value of a [`TraitArgs`].
pub struct TraitArgsView {
    pub args: Seq<FieldView>,
}

impl DeepView for TraitArgs {
    type V = TraitArgsView;

    open spec fn deep_view(&self) -> TraitArgsView {
        TraitArgsView { args: self.args.deep_view() }
    }
}

/// The head of a declaration: the attributes and the name of the parser, and
/// the options that all subcommands share.
#[derive(Clone, Debug, PartialEq, Eq)]
pub struct ParserDef {
    pub attrs: Vec<Vec<Token>>,
    pub ident: String,
    pub fields: Vec<Field>,
}

/// The value of a [`ParserDef`].
pub struct ParserDefView {
    pub attrs: Seq<Seq<Tok>>,
    pub ident: Seq<char>,
    pub fields: Seq<FieldView>,
}

impl DeepView for ParserDef {
    type V = ParserDefView;

    open spec fn deep_view(&self) -> ParserDefView {
        ParserDefView {
            attrs: self.attrs.deep_view(),
            ident: self.ident@,
            fields: self.fields.deep_view(),
        }
    }
}

/// A whole declaration.
#[derive(Clone, Debug, PartialEq, Eq)]
pub struct ClapArgsWithSubs {
    pub parser: ParserDef,
    pub trait_args: Option<TraitArgs>,
    pub commands: Commands,
}

/// The value of a [`ClapArgsWithSubs`].
pub struct ClapArgsWithSubsView {
    pub parser: ParserDefView,
    pub trait_args: Option<TraitArgsView>,
    pub commands: CommandsView,
}

impl DeepView for ClapArgsWithSubs {
    type V = ClapArgsWithSubsView;

    open spec fn deep_view(&self) -> ClapArgsWithSubsView {
        ClapArgsWithSubsView {
            parser: self.parser.deep_view(),
            trait_args: self.trait_args.deep_view(),
            commands: self.commands.deep_view(),
        }
    }
}

/// Every one of the attributes is one that `syn` accepts.
pub open spec fn attrs_well_formed(attrs: Seq<Seq<Tok>>) -> bool {
    forall|i: int| 0 <= i < attrs.len() ==> is_attributes_text(render_spec(#[trigger] attrs[i]))
}

/// Every one of the fields is well formed.
pub open spec fn fields_well_formed(fields: Seq<FieldView>) -> bool {
    forall|i: int| 0 <= i < fields.len() ==> (#[trigger] fields[i]).well_formed()
}

impl FieldView {
    /// The attributes are attributes, the name is a name and the type is a
    /// type, as `syn` reads them.
    pub open spec fn well_formed(self) -> bool {
        &&& attrs_well_formed(self.attrs)
        &&& is_ident_text(self.ident)
        &&& is_type_text(render_spec(self.ty))
    }
}

impl FieldsView {
    /// Named fields are well formed; a single type is a type.
    pub open spec fn well_formed(self) -> bool {
        match self {
            FieldsView::Unit => true,
            FieldsView::Named(fields) => fields_well_formed(fields),
            FieldsView::Unnamed(ty) => is_type_text(render_spec(ty)),
        }
    }
}

impl Variant2View {
    /// The attributes are attributes, the name is a name, and what the
    /// variant carries is well formed.
    pub open spec fn well_formed(self) -> bool {
        &&& attrs_well_formed(self.attrs)
        &&& is_ident_text(self.ident)
        &&& self.fields.well_formed()
    }
}

impl CmdHandlerView {
    /// The variant is well formed, and a handler is a block in braces.
    pub open spec fn well_formed(self) -> bool {
        &&& self.enum_variant.well_formed()
        &&& (self.handler matches Some(block) ==> is_block_text(render_spec(block)))
    }
}

/// Every one of the subcommands is well formed.
pub open spec fn commands_well_formed(commands: Seq<CmdHandlerView>) -> bool {
    forall|i: int| 0 <= i < commands.len() ==> (#[trigger] commands[i]).well_formed()
}

impl ClapArgsWithSubsView {
    /// Every part of the declaration is what it should be, as `syn` reads
    /// it, and there is at least one subcommand.
    pub open spec fn well_formed(self) -> bool {
        &&& attrs_well_formed(self.parser.attrs)
        &&& is_ident_text(self.parser.ident)
        &&& fields_well_formed(self.parser.fields)
        &&& (self.trait_args matches Some(trait_args) ==> fields_well_formed(trait_args.args))
        &&& self.commands.commands.len() > 0
        &&& commands_well_formed(self.commands.commands)
    }
}

} // verus!
