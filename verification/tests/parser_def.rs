use applause_core::ast::{ClapArgsWithSubs, CmdHandler, Field, Fields, ParserDef, Variant2};
use applause_core::error::{ErrorKind, SyntaxError};
use applause_core::lexer::tokenize;
use applause_core::token::{Delim, Token};

fn ident(text: &str) -> Token {
    Token::Ident(text.to_string())
}

#[test]
fn parserdef_empty() {
    let tokens = tokenize("Test {};").unwrap();
    let wanted = ParserDef {
        attrs: vec![],
        ident: "Test".to_string(),
        fields: vec![],
    };

    let got = ParserDef::parse(&tokens).unwrap();

    assert_eq!(wanted, got);
}

#[test]
fn parserdef_struct_attrs() {
    let tokens = tokenize("#[test_attr] Test {};").unwrap();

    let attr = vec![
        Token::Punct('#', false),
        Token::Open(Delim::Bracket),
        ident("test_attr"),
        Token::Close(Delim::Bracket),
    ];

    let wanted = ParserDef {
        attrs: vec![attr],
        ident: "Test".to_string(),
        fields: vec![],
    };

    let got = ParserDef::parse(&tokens).unwrap();

    assert_eq!(wanted, got);
}

#[test]
fn parserdef_fields() {
    let tokens = tokenize("Test { test: String, };").unwrap();

    let f = Field {
        attrs: vec![],
        ident: "test".to_string(),
        ty: vec![ident("String")],
    };

    let wanted = ParserDef {
        attrs: vec![],
        ident: "Test".to_string(),
        fields: vec![f],
    };

    let got = ParserDef::parse(&tokens).unwrap();

    assert_eq!(wanted, got);
}

#[test]
fn parserdef_field_attrs() {
    let tokens = tokenize("Test { #[field_attr(ff)] test: String, };").unwrap();

    let attr = vec![
        Token::Punct('#', false),
        Token::Open(Delim::Bracket),
        ident("field_attr"),
        Token::Open(Delim::Parenthesis),
        ident("ff"),
        Token::Close(Delim::Parenthesis),
        Token::Close(Delim::Bracket),
    ];
    let f = Field {
        attrs: vec![attr],
        ident: "test".to_string(),
        ty: vec![ident("String")],
    };

    let wanted = ParserDef {
        attrs: vec![],
        ident: "Test".to_string(),
        fields: vec![f],
    };

    let got = ParserDef::parse(&tokens).unwrap();

    assert_eq!(wanted, got);
}

#[test]
fn parserdef_without_trailing_comma() {
    let with = ParserDef::parse(&tokenize("Test { a: u8, b: u16, };").unwrap()).unwrap();
    let without = ParserDef::parse(&tokenize("Test { a: u8, b: u16 };").unwrap()).unwrap();
    assert_eq!(with, without);
    assert_eq!(with.fields.len(), 2);
    assert_eq!(with.fields[1].ident, "b");
    assert_eq!(with.fields[1].ty, vec![ident("u16")]);
}

#[test]
fn parserdef_rejects_what_follows() {
    let tokens = tokenize("Test {}; commands { A };").unwrap();
    assert_eq!(
        ParserDef::parse(&tokens),
        Err(SyntaxError { kind: ErrorKind::TrailingTokens, position: 4 })
    );
}

#[test]
fn field_type_may_hold_commas_in_angle_brackets() {
    let tokens = tokenize("Test { m: HashMap<String, u32>, n: u8 };").unwrap();
    let got = ParserDef::parse(&tokens).unwrap();
    assert_eq!(got.fields.len(), 2);
    assert_eq!(got.fields[0].ident, "m");
    assert_eq!(
        got.fields[0].ty,
        vec![
            ident("HashMap"),
            Token::Punct('<', false),
            ident("String"),
            Token::Punct(',', false),
            ident("u32"),
            Token::Punct('>', true),
        ]
    );
    assert_eq!(got.fields[1].ident, "n");
    assert_eq!(got.fields[1].ty, vec![ident("u8")]);
}

#[test]
fn field_type_may_hold_commas_in_groups() {
    let tokens = tokenize("Test { pair: (u8, u16), f: fn(u8, u8) -> u8 };").unwrap();
    let got = ParserDef::parse(&tokens).unwrap();
    assert_eq!(got.fields.len(), 2);
    assert_eq!(got.fields[0].ty.len(), 5);
    assert_eq!(got.fields[1].ident, "f");
    assert_eq!(got.fields[1].ty.len(), 9);
}

#[test]
fn declaration_without_trait_args() {
    let tokens = tokenize("Cli {}; commands { Cmd1{} => { do_cmd1() }, };").unwrap();
    let got = ClapArgsWithSubs::parse(&tokens).unwrap();
    assert_eq!(got.parser.ident, "Cli");
    assert_eq!(got.trait_args, None);
    assert_eq!(got.commands.commands.len(), 1);
    let wanted = CmdHandler {
        enum_variant: Variant2 {
            attrs: vec![],
            ident: "Cmd1".to_string(),
            fields: Fields::Named(vec![]),
        },
        handler: Some(vec![
            Token::Open(Delim::Brace),
            ident("do_cmd1"),
            Token::Open(Delim::Parenthesis),
            Token::Close(Delim::Parenthesis),
            Token::Close(Delim::Brace),
        ]),
    };
    assert_eq!(got.commands.commands[0], wanted);
}

#[test]
fn declaration_with_trait_args() {
    let tokens =
        tokenize("Cli {}; trait_args(a: u8, b: String); commands { Foo(foo::Foo), Bar };").unwrap();
    let got = ClapArgsWithSubs::parse(&tokens).unwrap();
    let args = got.trait_args.unwrap().args;
    assert_eq!(args.len(), 2);
    assert_eq!(args[0].ident, "a");
    assert_eq!(args[0].ty, vec![ident("u8")]);
    assert_eq!(args[1].ident, "b");
    assert_eq!(args[1].ty, vec![ident("String")]);
    assert_eq!(got.commands.commands.len(), 2);
    assert_eq!(
        got.commands.commands[0].enum_variant.fields,
        Fields::Unnamed(vec![
            ident("foo"),
            Token::Punct(':', true),
            Token::Punct(':', false),
            ident("Foo"),
        ])
    );
    assert_eq!(got.commands.commands[0].handler, None);
    assert_eq!(got.commands.commands[1].enum_variant.fields, Fields::Unit);
}

#[test]
fn empty_trait_args_are_no_parameters() {
    let tokens = tokenize("Cli {}; trait_args(); commands { A };").unwrap();
    let got = ClapArgsWithSubs::parse(&tokens).unwrap();
    assert_eq!(got.trait_args.unwrap().args, vec![]);
}

#[test]
fn variant_attributes_are_kept() {
    let tokens = tokenize(
        "Cli {}; commands { /// Subcommand 1\n #[clap(alias = \"1\")] Cmd1{} => { go() } };",
    )
    .unwrap();
    let got = ClapArgsWithSubs::parse(&tokens).unwrap();
    let attrs = &got.commands.commands[0].enum_variant.attrs;
    assert_eq!(attrs.len(), 2);
    assert_eq!(
        attrs[0],
        vec![
            Token::Punct('#', false),
            Token::Open(Delim::Bracket),
            ident("doc"),
            Token::Punct('=', false),
            Token::Literal("\" Subcommand 1\"".to_string()),
            Token::Close(Delim::Bracket),
        ]
    );
    assert_eq!(attrs[1], tokenize("#[clap(alias = \"1\")]").unwrap());
}

#[test]
fn trailing_comma_after_last_subcommand() {
    let with = ClapArgsWithSubs::parse(&tokenize("Cli {}; commands { A, B, };").unwrap()).unwrap();
    let without = ClapArgsWithSubs::parse(&tokenize("Cli {}; commands { A, B };").unwrap()).unwrap();
    assert_eq!(with, without);
    assert_eq!(with.commands.commands.len(), 2);
}
