use applause_core::clap_args_with_subcommands;
use applause_core::expand;
use applause_core::lexer::tokenize;
use applause_core::token::render;

const DERIVE_PARSER: &str = "# [ derive ( :: applause :: clap :: Parser , Debug ) ] ";
const DERIVE_SUBCOMMAND: &str = "# [ derive ( :: applause :: clap :: Subcommand , Debug ) ] ";
const WHERE: &str = "where T : :: applause :: clap :: Subcommand + ";
const COMMAND_FIELD: &str = "# [ clap ( subcommand ) ] pub cmd : T ";
const ALLOW: &str = "# [ allow ( unused_variables ) ] ";

#[test]
fn simple_declaration_dispatches_to_its_handler() {
    let code = clap_args_with_subcommands(
        "Cli {}; commands { Cmd1{} => { record(\"cmd1\") } };",
    )
    .unwrap();
    let wanted = format!(
        "pub type Cli = CliParser < CliCmd > ; \
         {DERIVE_PARSER}pub struct CliParser < T > {WHERE}CliRun {{ {COMMAND_FIELD}, }} \
         pub trait CliRun : :: core :: fmt :: Debug {{ fn run ( & self ) -> ( ) ; }} \
         {DERIVE_SUBCOMMAND}pub enum CliCmd {{ Cmd1 {{ }} }} \
         {ALLOW}impl CliRun for CliCmd {{ fn run ( & self ) {{ match & self {{ \
         Self :: Cmd1 {{ }} => {{ record ( \"cmd1\" ) }} }} }} }} "
    );
    assert_eq!(code, wanted);
    assert_eq!(code.matches("record").count(), 1);
    assert!(syn::parse_str::<syn::File>(&code).is_ok());
}

#[test]
fn shared_field_and_named_subcommand() {
    let code = clap_args_with_subcommands(
        "Cli { #[clap(long, short)] num: usize, }; \
         commands { Cmd1 { name: String } => { println!(\"I am {}\", name); }, };",
    )
    .unwrap();
    let wanted = format!(
        "pub type Cli = CliParser < CliCmd > ; \
         {DERIVE_PARSER}pub struct CliParser < T > {WHERE}CliRun \
         {{ {COMMAND_FIELD}, # [ clap ( long , short ) ] num : usize }} \
         pub trait CliRun : :: core :: fmt :: Debug {{ fn run ( & self ) -> ( ) ; }} \
         {DERIVE_SUBCOMMAND}pub enum CliCmd {{ Cmd1 {{ name : String }} }} \
         {ALLOW}impl CliRun for CliCmd {{ fn run ( & self ) {{ match & self {{ \
         Self :: Cmd1 {{ name }} => {{ println ! ( \"I am {{}}\" , name ) ; }} }} }} }} "
    );
    assert_eq!(code, wanted);
    assert!(syn::parse_str::<syn::File>(&code).is_ok());
}

#[test]
fn attributes_pass_to_struct_and_variant() {
    let code = clap_args_with_subcommands(
        "#[clap(name = \"attrs_example\")] Cli {}; \
         commands{ /// Subcommand 1\n #[clap(alias = \"1\")] Cmd1{} => { println!(\"cmd1\") }, };",
    )
    .unwrap();
    assert!(code.contains(&format!(
        "{DERIVE_PARSER}# [ clap ( name = \"attrs_example\" ) ] pub struct CliParser < T > \
         {WHERE}CliRun {{ {COMMAND_FIELD}, }} "
    )));
    assert!(code.contains(
        "pub enum CliCmd { # [ doc = \" Subcommand 1\" ] # [ clap ( alias = \"1\" ) ] Cmd1 { } } "
    ));
    assert!(syn::parse_str::<syn::File>(&code).is_ok());
}

#[test]
fn chained_declaration_hands_on() {
    let code = clap_args_with_subcommands(
        "#[clap(name = \"chain\")] Cli {}; commands { Foo(foo::Foo), };",
    )
    .unwrap();
    assert!(code.contains("pub enum CliCmd { Foo ( foo :: Foo ) } "));
    assert!(code.contains(
        "match & self { Self :: Foo ( handler ) => \
         < foo :: FooCmd as foo :: FooRun > :: run ( & handler . cmd ) } "
    ));
    let nested = clap_args_with_subcommands(
        "Foo {}; commands { /// Do a bar\n Bar{} => { bar() }, /// Do a baz\n Baz{} => { baz() }, };",
    )
    .unwrap();
    assert!(nested.contains("pub type Foo = FooParser < FooCmd > ; "));
    assert!(nested.contains("pub trait FooRun : "));
    assert!(nested.contains("pub enum FooCmd { "));
    assert!(nested.contains("impl FooRun for FooCmd { "));
    assert!(syn::parse_str::<syn::File>(&code).is_ok());
    assert!(syn::parse_str::<syn::File>(&nested).is_ok());
}

#[test]
fn trait_args_reach_signature_and_calls() {
    let code = clap_args_with_subcommands(
        "Cli {}; trait_args(a: u8, b: String); \
         commands { Foo(foo::Foo), Bar, Two { x: u8, y: HashMap<String, u32> } => { go(x, y, a) } };",
    )
    .unwrap();
    assert_eq!(code.matches("fn run ( & self , a : u8 , b : String ) ").count(), 2);
    assert!(code.contains(
        "Self :: Foo ( handler ) => \
         < foo :: FooCmd as foo :: FooRun > :: run ( & handler . cmd , a , b ) , \
         Self :: Bar => { unimplemented ! ( ) ; } , \
         Self :: Two { x , y } => { go ( x , y , a ) } "
    ));
    assert!(syn::parse_str::<syn::File>(&code).is_ok());
}

#[test]
fn the_five_pieces_use_the_same_names() {
    let code = clap_args_with_subcommands("Main { v: bool }; commands { A, B(B) };").unwrap();
    assert!(code.starts_with("pub type Main = MainParser < MainCmd > ; "));
    assert!(code.contains("pub struct MainParser < T > where T : :: applause :: clap :: Subcommand + MainRun { "));
    assert!(code.contains("pub trait MainRun : "));
    assert!(code.contains("{ # [ clap ( subcommand ) ] pub cmd : T , v : bool } "));
    assert!(code.contains("pub enum MainCmd { A , B ( B ) } "));
    assert!(code.contains("impl MainRun for MainCmd { "));
    assert_eq!(code.matches("MainParser").count(), 2);
    assert_eq!(code.matches("MainCmd").count(), 3);
    assert_eq!(code.matches("MainRun").count(), 3);
}

#[test]
fn same_text_gives_same_code() {
    let text = "Cli { n: u8 }; trait_args(a: u8); commands { A => { a() }, B(b::B), C };";
    let first = clap_args_with_subcommands(text);
    let second = clap_args_with_subcommands(text);
    assert!(first.is_ok());
    assert_eq!(first, second);
    let bad = "Cli { n: u8 }; commands { A => { a() } }";
    assert!(clap_args_with_subcommands(bad).is_err());
    assert_eq!(clap_args_with_subcommands(bad), clap_args_with_subcommands(bad));
}

#[test]
fn layout_of_the_text_does_not_matter() {
    let dense = clap_args_with_subcommands("Cli{};commands{A=>{a()},};").unwrap();
    let loose = clap_args_with_subcommands(
        "Cli { } ;\n\n// the subcommands\ncommands {\n    A => { a ( ) } ,\n} ;\n",
    )
    .unwrap();
    assert_eq!(dense, loose);
}

#[test]
fn expand_and_render_make_the_text() {
    let text = "Cli {}; commands { A => { a() } };";
    let tokens = tokenize(text).unwrap();
    let code = expand(&tokens).unwrap();
    assert_eq!(Ok(render(&code)), clap_args_with_subcommands(text));
    assert_eq!(tokenize(&render(&code)).unwrap(), code);
}
