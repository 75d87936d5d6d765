use applause_core::error::{ErrorKind, SyntaxError};
use applause_core::lexer::tokenize;
use applause_core::token::{push_close, push_open, push_punct, push_word, render, Delim, Token};

#[test]
fn tokenize_writes_groups_flat() {
    let tokens = tokenize("a(b[c]{d})").unwrap();
    let wanted = vec![
        Token::Ident("a".to_string()),
        Token::Open(Delim::Parenthesis),
        Token::Ident("b".to_string()),
        Token::Open(Delim::Bracket),
        Token::Ident("c".to_string()),
        Token::Close(Delim::Bracket),
        Token::Open(Delim::Brace),
        Token::Ident("d".to_string()),
        Token::Close(Delim::Brace),
        Token::Close(Delim::Parenthesis),
    ];
    assert_eq!(tokens, wanted);
}

#[test]
fn tokenize_tells_joined_punctuation() {
    let tokens = tokenize("a => b = > 1.5 \"s t\"").unwrap();
    let wanted = vec![
        Token::Ident("a".to_string()),
        Token::Punct('=', true),
        Token::Punct('>', false),
        Token::Ident("b".to_string()),
        Token::Punct('=', false),
        Token::Punct('>', false),
        Token::Literal("1.5".to_string()),
        Token::Literal("\"s t\"".to_string()),
    ];
    assert_eq!(tokens, wanted);
}

#[test]
fn tokenize_rejects_what_is_no_token_sequence() {
    let wanted = Err(SyntaxError { kind: ErrorKind::NotTokens, position: 0 });
    assert_eq!(tokenize("( a"), wanted);
    assert_eq!(tokenize("a )"), wanted);
    assert_eq!(tokenize("\"open"), wanted);
    assert_eq!(tokenize(""), Ok(vec![]));
}

#[test]
fn render_parts_tokens_by_one_space() {
    let tokens = vec![
        Token::Ident("a".to_string()),
        Token::Punct('=', true),
        Token::Punct('>', false),
        Token::Open(Delim::Brace),
        Token::Literal("\"x\"".to_string()),
        Token::Punct(';', false),
        Token::Close(Delim::Brace),
        Token::Open(Delim::Parenthesis),
        Token::Close(Delim::Parenthesis),
        Token::Open(Delim::Bracket),
        Token::Close(Delim::Bracket),
        Token::Open(Delim::Invisible),
        Token::Close(Delim::Invisible),
    ];
    assert_eq!(render(&tokens), "a => { \"x\" ; } ( ) [ ]   ");
    assert_eq!(render(&vec![]), "");
}

#[test]
fn render_is_read_back_as_the_same_tokens() {
    let text = "#[a(b = \"c\")] X { y: &'static str, z: Vec<Vec<u8>> } => { a -> b; c::d(1..=2) }";
    let tokens = tokenize(text).unwrap();
    assert_eq!(tokenize(&render(&tokens)).unwrap(), tokens);
}

#[test]
fn tokens_are_pushed_at_the_end() {
    let mut out = vec![Token::Ident("a".to_string())];
    push_word(&mut out, "b");
    push_punct(&mut out, '=', true);
    push_punct(&mut out, '>', false);
    push_open(&mut out, Delim::Brace);
    push_close(&mut out, Delim::Brace);
    assert_eq!(out, tokenize("a b => {}").unwrap());
    assert_eq!(out[1].duplicate(), Token::Ident("b".to_string()));
}
