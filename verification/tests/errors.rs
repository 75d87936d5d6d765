use applause_core::ast::ClapArgsWithSubs;
use applause_core::clap_args_with_subcommands;
use applause_core::error::{ErrorKind, SyntaxError};
use applause_core::expand;
use applause_core::token::{Delim, Token};

fn fails(input: &str, kind: ErrorKind, position: usize) {
    assert_eq!(clap_args_with_subcommands(input), Err(SyntaxError { kind, position }));
}

#[test]
fn missing_terminator_after_commands_fails() {
    fails(
        "Cli {}; commands { Cmd1{} => { record(\"cmd1\") } }",
        ErrorKind::ExpectedSemicolon,
        18,
    );
}

#[test]
fn missing_terminator_after_fields_fails() {
    fails("Cli {} commands { A };", ErrorKind::ExpectedSemicolon, 3);
}

#[test]
fn missing_terminator_after_trait_args_fails() {
    fails("Cli {}; trait_args(a: u8) commands { A };", ErrorKind::ExpectedSemicolon, 10);
}

#[test]
fn text_that_is_no_tokens_fails() {
    fails("Cli {}; commands { A ", ErrorKind::NotTokens, 0);
    fails("Cli {}; commands { \"open };", ErrorKind::NotTokens, 0);
}

#[test]
fn missing_name_fails() {
    fails("{}; commands { A };", ErrorKind::ExpectedIdent, 0);
    fails("", ErrorKind::ExpectedIdent, 0);
}

#[test]
fn keyword_is_no_name() {
    fails("struct {}; commands { A };", ErrorKind::ExpectedIdent, 0);
    fails("Cli { fn: u8 }; commands { A };", ErrorKind::ExpectedIdent, 2);
    fails("Cli {}; commands { match };", ErrorKind::ExpectedIdent, 6);
}

#[test]
fn field_without_colon_fails() {
    fails("Cli { a }; commands { A };", ErrorKind::ExpectedColon, 3);
    fails("Cli { a u8 }; commands { A };", ErrorKind::ExpectedColon, 3);
}

#[test]
fn field_without_type_fails() {
    fails("Cli { a: }; commands { A };", ErrorKind::ExpectedType, 4);
    fails("Cli { a: u8 b: u8 }; commands { A };", ErrorKind::ExpectedType, 4);
    fails("Cli { a: +, b: u8 }; commands { A };", ErrorKind::ExpectedType, 4);
}

#[test]
fn field_with_visibility_fails() {
    fails("Cli { pub a: u8 }; commands { A };", ErrorKind::ExpectedIdent, 2);
}

#[test]
fn missing_braces_fail() {
    fails("Cli; commands { A };", ErrorKind::ExpectedBrace, 1);
    fails("Cli {}; commands;", ErrorKind::ExpectedBrace, 5);
    fails("Cli {}; commands ( A );", ErrorKind::ExpectedBrace, 5);
}

#[test]
fn trait_args_without_parentheses_fail() {
    fails("Cli {}; trait_args; commands { A };", ErrorKind::ExpectedParenthesis, 5);
    fails("Cli {}; trait_args { a: u8 }; commands { A };", ErrorKind::ExpectedParenthesis, 5);
}

#[test]
fn wrong_keyword_fails() {
    fails("Cli {};", ErrorKind::ExpectedCommands, 4);
    fails("Cli {}; command { A };", ErrorKind::ExpectedCommands, 4);
    fails("Cli {}; trait_args(a: u8); trait_args(b: u8); commands { A };", ErrorKind::ExpectedCommands, 11);
    fails("Cli {}; commands { A }; trait_args(a: u8);", ErrorKind::TrailingTokens, 9);
}

#[test]
fn attribute_without_brackets_fails() {
    fails("# Cli {}; commands { A };", ErrorKind::ExpectedBracket, 1);
    fails("Cli {}; commands { #(x) A };", ErrorKind::ExpectedBracket, 7);
}

#[test]
fn brackets_that_hold_no_attribute_fail() {
    fails("#[1] Cli {}; commands { A };", ErrorKind::BadAttribute, 0);
    fails("#[] Cli {}; commands { A };", ErrorKind::BadAttribute, 0);
    fails("Cli { #[a] #[+] x: u8 }; commands { A };", ErrorKind::BadAttribute, 6);
}

#[test]
fn subcommands_without_comma_fail() {
    fails("Cli {}; commands { A B };", ErrorKind::ExpectedComma, 7);
    fails("Cli {}; commands { A => { a() } B };", ErrorKind::ExpectedComma, 14);
    fails("Cli {}; commands { A = > { a() } };", ErrorKind::ExpectedComma, 7);
}

#[test]
fn arrow_without_block_fails() {
    fails("Cli {}; commands { A => 1 };", ErrorKind::ExpectedBlock, 9);
    fails("Cli {}; commands { A => };", ErrorKind::ExpectedBlock, 9);
    fails("Cli {}; commands { A => (a) };", ErrorKind::ExpectedBlock, 9);
}

#[test]
fn braces_that_hold_no_block_fail() {
    fails("Cli {}; commands { A => { let } };", ErrorKind::BadBlock, 9);
    fails("Cli {}; commands { A => { fn } };", ErrorKind::BadBlock, 9);
}

#[test]
fn tokens_after_the_declaration_fail() {
    fails("Cli {}; commands { A }; extra", ErrorKind::TrailingTokens, 9);
    fails("Cli {}; commands { A };;", ErrorKind::TrailingTokens, 9);
}

#[test]
fn repeated_variant_name_fails() {
    fails("Cli {}; commands { A, A };", ErrorKind::DuplicateVariant, 8);
    fails("Cli {}; commands { A, B(b::B), #[x] A {} => { a() } };", ErrorKind::DuplicateVariant, 20);
}

#[test]
fn unnamed_with_more_than_one_type_fails() {
    fails("Cli {}; commands { A(u8, u16) };", ErrorKind::ExpectedType, 8);
    fails("Cli {}; commands { A(u8,) };", ErrorKind::ExpectedType, 8);
    fails("Cli {}; commands { A() };", ErrorKind::ExpectedType, 8);
}

#[test]
fn no_subcommand_fails() {
    fails("Cli {}; commands { };", ErrorKind::ExpectedIdent, 6);
    fails("Cli {}; commands { , };", ErrorKind::ExpectedIdent, 6);
}

#[test]
fn group_that_is_not_closed_fails() {
    let open = vec![Token::Ident("Cli".to_string()), Token::Open(Delim::Brace)];
    assert_eq!(
        ClapArgsWithSubs::parse(&open),
        Err(SyntaxError { kind: ErrorKind::UnclosedGroup, position: 1 })
    );
    let crossed = vec![
        Token::Ident("Cli".to_string()),
        Token::Open(Delim::Brace),
        Token::Close(Delim::Parenthesis),
        Token::Punct(';', false),
    ];
    assert_eq!(
        expand(&crossed),
        Err(SyntaxError { kind: ErrorKind::UnclosedGroup, position: 1 })
    );
    let attr = vec![
        Token::Punct('#', false),
        Token::Open(Delim::Bracket),
        Token::Ident("a".to_string()),
    ];
    assert_eq!(
        expand(&attr),
        Err(SyntaxError { kind: ErrorKind::UnclosedGroup, position: 1 })
    );
}

#[test]
fn every_error_kind_has_its_words() {
    let kinds = [
        (ErrorKind::NotTokens, "the text is no sequence of tokens"),
        (ErrorKind::ExpectedIdent, "expected a name"),
        (ErrorKind::ExpectedColon, "expected `:`"),
        (ErrorKind::ExpectedType, "expected a type"),
        (ErrorKind::ExpectedBrace, "expected `{`"),
        (ErrorKind::ExpectedParenthesis, "expected `(`"),
        (ErrorKind::ExpectedBracket, "expected `[`"),
        (ErrorKind::UnclosedGroup, "this group is not closed"),
        (ErrorKind::ExpectedSemicolon, "expected `;`"),
        (ErrorKind::ExpectedComma, "expected `,`"),
        (ErrorKind::ExpectedCommands, "expected `commands`"),
        (ErrorKind::ExpectedBlock, "expected a block after `=>`"),
        (ErrorKind::BadAttribute, "this is no attribute"),
        (ErrorKind::BadBlock, "this is no block of statements"),
        (ErrorKind::DuplicateVariant, "a subcommand of this name exists already"),
        (ErrorKind::TrailingTokens, "unexpected token after the declaration"),
    ];
    for (kind, words) in kinds {
        assert_eq!(kind.describe(), words);
    }
}
