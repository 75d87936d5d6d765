use applause_core::ast::{
    ClapArgsWithSubs, CmdHandler, Commands, Field, Fields, ParserDef, TraitArgs, Variant2,
};
use applause_core::emitter::{derive_name, push_all, push_joined, PathParts};
use applause_core::layout::Behavior;
use applause_core::lexer::tokenize;
use applause_core::token::{append_tokens, render, Token};

fn toks(text: &str) -> Vec<Token> {
    tokenize(text).unwrap()
}

fn field(name: &str, ty: &str) -> Field {
    Field { attrs: vec![], ident: name.to_string(), ty: toks(ty) }
}

fn entry(name: &str, fields: Fields, handler: Option<&str>) -> CmdHandler {
    CmdHandler {
        enum_variant: Variant2 { attrs: vec![], ident: name.to_string(), fields },
        handler: handler.map(toks),
    }
}

fn declaration(name: &str, args: Option<Vec<Field>>, commands: Vec<CmdHandler>) -> ClapArgsWithSubs {
    ClapArgsWithSubs {
        parser: ParserDef { attrs: vec![], ident: name.to_string(), fields: vec![] },
        trait_args: args.map(|args| TraitArgs { args }),
        commands: Commands { commands },
    }
}

#[test]
fn names_are_derived_by_suffix() {
    let d = declaration("Cli", None, vec![entry("A", Fields::Unit, None)]);
    assert_eq!(d.struct_ident(), "CliParser");
    assert_eq!(d.subcmd_enum_ident(), "CliCmd");
    assert_eq!(d.trait_ident(), "CliRun");
    assert_eq!(derive_name(&"Foo".to_string(), "Run"), "FooRun");
}

#[test]
fn type_alias_binds_name_to_parser_of_enum() {
    let d = declaration("Cli", None, vec![entry("A", Fields::Unit, None)]);
    assert_eq!(d.type_alias(), toks("pub type Cli = CliParser<CliCmd> ;"));
    assert_eq!(render(&d.type_alias()), "pub type Cli = CliParser < CliCmd > ; ");
}

#[test]
fn parser_struct_holds_command_and_shared_fields() {
    let mut d = declaration("Cli", None, vec![entry("A", Fields::Unit, None)]);
    d.parser.attrs = vec![toks("#[clap(name = \"x\")]"), toks("#[second]")];
    d.parser.fields = vec![
        Field { attrs: vec![toks("#[clap(long, short)]")], ident: "num".to_string(), ty: toks("usize") },
        field("name", "Option<String>"),
    ];
    assert_eq!(
        render(&d.parser_struct()),
        "# [ derive ( :: applause :: clap :: Parser , Debug ) ] \
         # [ clap ( name = \"x\" ) ] # [ second ] \
         pub struct CliParser < T > where T : :: applause :: clap :: Subcommand + CliRun \
         { # [ clap ( subcommand ) ] pub cmd : T , \
         # [ clap ( long , short ) ] num : usize , name : Option < String > } "
    );
}

#[test]
fn parser_struct_without_shared_fields_keeps_the_comma() {
    let mut d = declaration("Test", None, vec![entry("A", Fields::Unit, None)]);
    d.parser.attrs = vec![toks("#[test_attr]")];
    assert_eq!(
        d.parser_struct(),
        toks(
            "#[derive(::applause::clap::Parser, Debug)] #[test_attr] \
             pub struct TestParser<T> where T: ::applause::clap::Subcommand + TestRun \
             { #[clap(subcommand)] pub cmd: T, }"
        )
    );
}

#[test]
fn dispatch_trait_has_one_method() {
    let d = declaration("Cli", None, vec![entry("A", Fields::Unit, None)]);
    assert_eq!(
        d.dispatch_trait(),
        toks("pub trait CliRun: ::core::fmt::Debug { fn run(&self) -> (); }")
    );
}

#[test]
fn trait_args_follow_the_receiver_in_order() {
    let args = vec![field("a", "u8"), field("b", "&'static str"), field("c", "Vec<u8>")];
    let d = declaration("Cli", Some(args), vec![entry("A", Fields::Unit, None)]);
    assert_eq!(
        d.trait_args(),
        vec![toks("&self"), toks("a: u8"), toks("b: &'static str"), toks("c: Vec<u8>")]
    );
    assert_eq!(
        d.dispatch_trait(),
        toks(
            "pub trait CliRun: ::core::fmt::Debug \
             { fn run(&self, a: u8, b: &'static str, c: Vec<u8>) -> (); }"
        )
    );
    let none = declaration("Cli", None, vec![entry("A", Fields::Unit, None)]);
    assert_eq!(none.trait_args(), vec![toks("&self")]);
}

#[test]
fn subcmd_enum_has_one_variant_per_entry() {
    let mut first = entry("Cmd1", Fields::Named(vec![field("name", "String"), field("n", "u8")]), Some("{ go() }"));
    first.enum_variant.attrs = vec![toks("/// Subcommand 1"), toks("#[clap(alias = \"1\")]")];
    let d = declaration(
        "Cli",
        None,
        vec![first, entry("Foo", Fields::Unnamed(toks("foo::Foo")), None), entry("Bar", Fields::Unit, None)],
    );
    assert_eq!(
        render(&d.subcmd_enum()),
        "# [ derive ( :: applause :: clap :: Subcommand , Debug ) ] pub enum CliCmd { \
         # [ doc = \" Subcommand 1\" ] # [ clap ( alias = \"1\" ) ] Cmd1 { name : String , n : u8 } , \
         Foo ( foo :: Foo ) , Bar } "
    );
    assert_eq!(
        d.commands.to_variants(),
        vec![
            toks("/// Subcommand 1\n #[clap(alias = \"1\")] Cmd1 { name: String, n: u8 }"),
            toks("Foo(foo::Foo)"),
            toks("Bar"),
        ]
    );
}

#[test]
fn patterns_bind_what_a_variant_carries() {
    let named = Variant2 {
        attrs: vec![toks("#[x]")],
        ident: "Cmd".to_string(),
        fields: Fields::Named(vec![field("a", "u8"), field("b", "u8")]),
    };
    assert_eq!(named.to_pat(), toks("Cmd { a, b }"));
    assert_eq!(named.to_tokens(), toks("#[x] Cmd { a: u8, b: u8 }"));
    let unnamed = Variant2 { attrs: vec![], ident: "Foo".to_string(), fields: Fields::Unnamed(toks("foo::Foo")) };
    assert_eq!(unnamed.to_pat(), toks("Foo(handler)"));
    let unit = Variant2 { attrs: vec![], ident: "Bar".to_string(), fields: Fields::Unit };
    assert_eq!(unit.to_pat(), toks("Bar"));
    assert_eq!(unit.to_tokens(), toks("Bar"));
    let empty = Variant2 { attrs: vec![], ident: "E".to_string(), fields: Fields::Named(vec![]) };
    assert_eq!(empty.to_pat(), toks("E {}"));
}

#[test]
fn handler_is_inlined_as_written() {
    let body = "{ println!(\"I am {}\", name); helper::<u8>(1 + 2) }";
    let e = entry("Cmd1", Fields::Named(vec![field("name", "String")]), Some(body));
    assert_eq!(e.behavior(), Behavior::Inline);
    assert_eq!(e.get_impl(&vec![]), Some(toks(body)));
    let mut arm = toks("Cmd1 { name } =>");
    arm.extend(toks(body));
    assert_eq!(e.to_arm(&vec![field("ignored", "u8")]), arm);
    let with_payload = entry("Foo", Fields::Unnamed(toks("foo::Foo")), Some("{ handler.go() }"));
    assert_eq!(with_payload.behavior(), Behavior::Inline);
    assert_eq!(with_payload.to_arm(&vec![]), toks("Foo(handler) => { handler.go() }"));
}

#[test]
fn unnamed_path_without_handler_delegates() {
    let e = entry("Foo", Fields::Unnamed(toks("foo::Foo")), None);
    assert_eq!(e.behavior(), Behavior::Delegate);
    assert_eq!(
        e.get_impl(&vec![]),
        Some(toks("<foo::FooCmd as foo::FooRun> ::run(&handler.cmd)"))
    );
    assert_eq!(
        e.to_arm(&vec![]),
        toks("Foo(handler) => <foo::FooCmd as foo::FooRun> ::run(&handler.cmd)")
    );
}

#[test]
fn delegation_uses_the_names_of_the_type() {
    let e = entry("Nested", Fields::Unnamed(toks("::a::b::Inner")), None);
    assert_eq!(
        e.to_arm(&vec![]),
        toks("Nested(handler) => < ::a::b::InnerCmd as ::a::b::InnerRun> ::run(&handler.cmd)")
    );
    let d = declaration("Inner", None, vec![entry("A", Fields::Unit, None)]);
    assert_eq!(d.subcmd_enum_ident(), "InnerCmd");
    assert_eq!(d.trait_ident(), "InnerRun");
}

#[test]
fn delegation_forwards_trait_args_in_order() {
    let args = vec![field("a", "u8"), field("b", "String"), field("c", "bool")];
    let e = entry("Foo", Fields::Unnamed(toks("Foo")), None);
    assert_eq!(
        e.get_impl(&args),
        Some(toks("<FooCmd as FooRun> ::run(&handler.cmd, a, b, c)"))
    );
    let d = declaration("Cli", Some(args), vec![e, entry("Bar", Fields::Unnamed(toks("x::Bar")), None)]);
    assert_eq!(
        d.subcmd_impl(),
        toks(
            "#[allow(unused_variables)] impl CliRun for CliCmd { \
             fn run(&self, a: u8, b: String, c: bool) { match &self { \
             Self::Foo(handler) => <FooCmd as FooRun> ::run(&handler.cmd, a, b, c), \
             Self::Bar(handler) => <x::BarCmd as x::BarRun> ::run(&handler.cmd, a, b, c) \
             } } }"
        )
    );
}

#[test]
fn delegation_keeps_the_arguments_of_the_last_segment() {
    let e = entry("C", Fields::Unnamed(toks("Vec<u8>")), None);
    assert_eq!(e.behavior(), Behavior::Delegate);
    assert_eq!(
        e.to_arm(&vec![]),
        toks("C(handler) => <VecCmd<u8> as VecRun<u8> > ::run(&handler.cmd)")
    );
    let nested = entry("D", Fields::Unnamed(toks("a::Foo<X, Y>")), None);
    assert_eq!(
        nested.get_impl(&vec![field("n", "u8")]),
        Some(toks("<a::FooCmd<X, Y> as a::FooRun<X, Y> > ::run(&handler.cmd, n)"))
    );
}

#[test]
fn nothing_to_hand_on_to_gives_the_stub() {
    let stub = Some(toks("{ unimplemented!(); }"));
    let unit = entry("A", Fields::Unit, None);
    assert_eq!(unit.behavior(), Behavior::Stub);
    assert_eq!(unit.get_impl(&vec![]), None);
    assert_eq!(Some(unit.to_arm(&vec![])[3..].to_vec()), stub);
    assert_eq!(unit.to_arm(&vec![]), toks("A => { unimplemented!(); }"));
    let named = entry("B", Fields::Named(vec![field("x", "u8")]), None);
    assert_eq!(named.behavior(), Behavior::Stub);
    assert_eq!(named.to_arm(&vec![]), toks("B { x } => { unimplemented!(); }"));
    let no_path = entry("C", Fields::Unnamed(toks("&Foo")), None);
    assert_eq!(no_path.behavior(), Behavior::Stub);
    assert_eq!(no_path.get_impl(&vec![]), None);
    assert_eq!(no_path.to_arm(&vec![]), toks("C(handler) => { unimplemented!(); }"));
    let tuple = entry("D", Fields::Unnamed(toks("(u8, u16)")), None);
    assert_eq!(tuple.behavior(), Behavior::Stub);
    assert_eq!(tuple.to_arm(&vec![]), toks("D(handler) => { unimplemented!(); }"));
}

#[test]
fn a_path_is_split_at_its_last_segment() {
    let parts = |text: &str| Fields::Unnamed(toks(text)).delegate_target();
    assert_eq!(
        parts("Foo"),
        Some(PathParts { prefix: vec![], name: "Foo".to_string(), arguments: vec![] })
    );
    assert_eq!(
        parts("foo::Foo"),
        Some(PathParts { prefix: toks("foo::"), name: "Foo".to_string(), arguments: vec![] })
    );
    assert_eq!(
        parts("::foo::bar::Foo"),
        Some(PathParts { prefix: toks("::foo::bar::"), name: "Foo".to_string(), arguments: vec![] })
    );
    assert_eq!(
        parts("a::Vec<u8>"),
        Some(PathParts { prefix: toks("a::"), name: "Vec".to_string(), arguments: toks("<u8 >") })
    );
    assert_eq!(parts("&Foo"), None);
    assert_eq!(parts("(Foo)"), None);
    assert_eq!(parts("[u8; 4]"), None);
    assert_eq!(parts("foo::"), None);
    assert_eq!(parts("Foo Bar"), None);
    assert_eq!(parts(""), None);
    assert_eq!(Fields::Unit.delegate_target(), None);
    assert_eq!(Fields::Named(vec![field("x", "Foo")]).delegate_target(), None);
}

#[test]
fn emitted_variants_are_read_back_the_same() {
    let text = "Cli {}; commands { #[a] A { x: u8, y: Vec<(u8, u16)> }, B(b::B<C>), C };";
    let d = ClapArgsWithSubs::parse(&toks(text)).unwrap();
    let mut again = toks("Cli {}; commands");
    again.extend(toks("{}")[..1].to_vec());
    push_joined(&mut again, &d.commands.to_variants());
    again.extend(toks("{}")[1..].to_vec());
    again.extend(toks(";"));
    assert_eq!(ClapArgsWithSubs::parse(&again), Ok(d));
}

#[test]
fn emit_gives_the_five_pieces_in_order() {
    let d = declaration("Cli", None, vec![entry("Cmd1", Fields::Named(vec![]), Some("{ go() }"))]);
    let artifacts = d.emit();
    assert_eq!(artifacts.type_alias, d.type_alias());
    assert_eq!(artifacts.parser_struct, d.parser_struct());
    assert_eq!(artifacts.dispatch_trait, d.dispatch_trait());
    assert_eq!(artifacts.subcmd_enum, d.subcmd_enum());
    assert_eq!(artifacts.subcmd_impl, d.subcmd_impl());
    let mut all = d.type_alias();
    all.extend(d.parser_struct());
    all.extend(d.dispatch_trait());
    all.extend(d.subcmd_enum());
    all.extend(d.subcmd_impl());
    assert_eq!(artifacts.concat(), all);
    assert_eq!(d.to_tokens(), all);
}

#[test]
fn pieces_are_joined_and_appended() {
    let mut out = toks("a");
    push_joined(&mut out, &vec![toks("b c"), toks(""), toks("d")]);
    assert_eq!(out, toks("a b c , , d"));
    let mut one = vec![];
    push_joined(&mut one, &vec![toks("x")]);
    assert_eq!(one, toks("x"));
    let mut none = toks("k");
    push_joined(&mut none, &vec![]);
    assert_eq!(none, toks("k"));
    let mut all = toks("a");
    push_all(&mut all, &vec![toks("b c"), toks(""), toks("d")]);
    assert_eq!(all, toks("a b c d"));
    let mut more = toks("a =");
    append_tokens(&mut more, &toks("> b"));
    assert_eq!(more, toks("a = > b"));
}
