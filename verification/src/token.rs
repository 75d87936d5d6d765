//! Tokens: the units that declarations are read from and that code is emitted in.

use vstd::prelude::*;
use vstd::string::StringExecFns;

verus! {

/// The bracket kinds that enclose a group of tokens.
#[derive(Clone, Copy, Debug, PartialEq, Eq, Structural)]
pub enum Delim {
    /// `( ... )`
    Parenthesis,
    /// `{ ... }`
    Brace,
    /// `[ ... ]`
    Bracket,
    /// A group without written brackets.
    Invisible,
}

/// One token of a flat token sequence. A group is written as its opening
/// token, its contents and its closing token.
#[derive(Clone, Debug, PartialEq, Eq)]
pub enum Token {
    /// A word: an identifier or a keyword.
    Ident(String),
    /// One punctuation character; the flag says that the next punctuation
    /// character follows it directly, as the `=` in `=>` does.
    Punct(char, bool),
    /// A literal, as it was written.
    Literal(String),
    /// The start of a group.
    Open(Delim),
    /// The end of a group.
    Close(Delim),
}

/// The mathematical value of a [`Token`].
pub enum Tok {
    Ident(Seq<char>),
    Punct(char, bool),
    Literal(Seq<char>),
    Open(Delim),
    Close(Delim),
}

impl DeepView for Token {
    type V = Tok;

    open spec fn deep_view(&self) -> Tok {
        match self {
            Token::Ident(s) => Tok::Ident(s@),
            Token::Punct(c, joint) => Tok::Punct(*c, *joint),
            Token::Literal(s) => Tok::Literal(s@),
            Token::Open(d) => Tok::Open(*d),
            Token::Close(d) => Tok::Close(*d),
        }
    }
}

/// The token is the punctuation character `c`, whatever follows it.
pub open spec fn is_punct(t: Tok, c: char) -> bool {
    t matches Tok::Punct(ch, _) && ch == c
}

/// The token is the word `word`.
pub open spec fn is_word(t: Tok, word: Seq<char>) -> bool {
    t == Tok::Ident(word)
}

/// The text of an opening bracket.
pub open spec fn open_text(d: Delim) -> Seq<char> {
    match d {
        Delim::Parenthesis => seq!['('],
        Delim::Brace => seq!['{'],
        Delim::Bracket => seq!['['],
        Delim::Invisible => Seq::empty(),
    }
}

/// The text of a closing bracket.
pub open spec fn close_text(d: Delim) -> Seq<char> {
    match d {
        Delim::Parenthesis => seq![')'],
        Delim::Brace => seq!['}'],
        Delim::Bracket => seq![']'],
        Delim::Invisible => Seq::empty(),
    }
}

/// The text of one token, with the space that parts it from the next one.
/// Only a punctuation character that is joined to its successor has none.
pub open spec fn token_text(t: Tok) -> Seq<char> {
    match t {
        Tok::Ident(s) => s.push(' '),
        Tok::Punct(c, joint) => if joint {
            seq![c]
        } else {
            seq![c, ' ']
        },
        Tok::Literal(s) => s.push(' '),
        Tok::Open(d) => open_text(d).push(' '),
        Tok::Close(d) => close_text(d).push(' '),
    }
}

/// The text of a token sequence: the texts of its tokens, in order.
pub open spec fn render_spec(s: Seq<Tok>) -> Seq<char>
    decreases s.len(),
{
    if s.len() == 0 {
        Seq::empty()
    } else {
        render_spec(s.drop_last()) + token_text(s.last())
    }
}

/// `String::push` of the standard library appends the given character to the
/// end of the string; the contract says so, over the string's characters.
pub assume_specification[ String::push ](s: &mut String, c: char)
    ensures
        final(s)@ == old(s)@.push(c),
;

impl Token {
    /// A copy of the token.
    pub fn duplicate(&self) -> (r: Token)
        ensures
            r == *self,
    {
        match self {
            Token::Ident(s) => Token::Ident(s.clone()),
            Token::Punct(c, joint) => Token::Punct(*c, *joint),
            Token::Literal(s) => Token::Literal(s.clone()),
            Token::Open(d) => Token::Open(*d),
            Token::Close(d) => Token::Close(*d),
        }
    }

    /// Appends the token's text to `out`.
    pub fn write_text(&self, out: &mut String)
        ensures
            final(out)@ == old(out)@ + token_text(self.deep_view()),
    {
        match self {
            Token::Ident(s) => {
                out.append(s.as_str());
                out.push(' ');
            },
            Token::Punct(c, joint) => {
                out.push(*c);
                if !*joint {
                    out.push(' ');
                }
            },
            Token::Literal(s) => {
                out.append(s.as_str());
                out.push(' ');
            },
            Token::Open(d) => {
                match d {
                    Delim::Parenthesis => out.push('('),
                    Delim::Brace => out.push('{'),
                    Delim::Bracket => out.push('['),
                    Delim::Invisible => {},
                }
                out.push(' ');
            },
            Token::Close(d) => {
                match d {
                    Delim::Parenthesis => out.push(')'),
                    Delim::Brace => out.push('}'),
                    Delim::Bracket => out.push(']'),
                    Delim::Invisible => {},
                }
                out.push(' ');
            },
        }
        assert(out@ =~= old(out)@ + token_text(self.deep_view()));
    }
}

/// A copy of the tokens of `src` from index `from` up to `to`.
pub(crate) fn copy_range(src: &Vec<Token>, from: usize, to: usize) -> (r: Vec<Token>)
    requires
        from <= to <= src.len(),
    ensures
        r@ == src@.subrange(from as int, to as int),
        r.deep_view() == src.deep_view().subrange(from as int, to as int),
{
    let mut r: Vec<Token> = Vec::new();
    let mut i: usize = from;
    while i < to
        invariant
            from <= i <= to <= src.len(),
            r@ == src@.subrange(from as int, i as int),
        decreases to - i,
    {
        r.push(src[i].duplicate());
        i += 1;
        assert(r@ =~= src@.subrange(from as int, i as int));
    }
    assert(r.deep_view() =~= src.deep_view().subrange(from as int, to as int));
    r
}

/// Appends a copy of every token of `src` to `out`.
pub fn append_tokens(out: &mut Vec<Token>, src: &Vec<Token>)
    ensures
        final(out)@ == old(out)@ + src@,
        final(out).deep_view() == old(out).deep_view() + src.deep_view(),
{
    let mut i: usize = 0;
    while i < src.len()
        invariant
            i <= src.len(),
            out@ == old(out)@ + src@.subrange(0, i as int),
        decreases src.len() - i,
    {
        out.push(src[i].duplicate());
        i += 1;
        assert(out@ =~= old(out)@ + src@.subrange(0, i as int));
    }
    assert(src@.subrange(0, src.len() as int) =~= src@);
    assert(out.deep_view() =~= old(out).deep_view() + src.deep_view());
}

/// The text of a token sequence.
pub fn render(tokens: &Vec<Token>) -> (text: String)
    ensures
        text@ == render_spec(tokens.deep_view()),
{
    let mut text = String::new();
    let mut i: usize = 0;
    while i < tokens.len()
        invariant
            i <= tokens.len(),
            text@ == render_spec(tokens.deep_view().subrange(0, i as int)),
        decreases tokens.len() - i,
    {
        tokens[i].write_text(&mut text);
        i += 1;
        assert(tokens.deep_view().subrange(0, i as int).drop_last()
            =~= tokens.deep_view().subrange(0, i as int - 1));
    }
    assert(tokens.deep_view().subrange(0, tokens.len() as int) =~= tokens.deep_view());
    text
}

/// Whether the token at index `i`, before `end`, is the punctuation
/// character `c`.
pub(crate) fn punct_at(tokens: &Vec<Token>, i: usize, end: usize, c: char) -> (b: bool)
    requires
        end <= tokens.len(),
    ensures
        b == (i < end && is_punct(tokens.deep_view()[i as int], c)),
{
    if i < end {
        match &tokens[i] {
            Token::Punct(ch, _) => *ch == c,
            _ => false,
        }
    } else {
        false
    }
}

/// Whether the token at index `i`, before `end`, opens a group with the
/// brackets `d`.
pub(crate) fn open_at(tokens: &Vec<Token>, i: usize, end: usize, d: Delim) -> (b: bool)
    requires
        end <= tokens.len(),
    ensures
        b == (i < end && tokens.deep_view()[i as int] == Tok::Open(d)),
{
    if i < end {
        match &tokens[i] {
            Token::Open(e) => *e == d,
            _ => false,
        }
    } else {
        false
    }
}

/// Whether the token at index `i`, before `end`, closes a group with the
/// brackets `d`.
pub(crate) fn close_at(tokens: &Vec<Token>, i: usize, end: usize, d: Delim) -> (b: bool)
    requires
        end <= tokens.len(),
    ensures
        b == (i < end && tokens.deep_view()[i as int] == Tok::Close(d)),
{
    if i < end {
        match &tokens[i] {
            Token::Close(e) => *e == d,
            _ => false,
        }
    } else {
        false
    }
}

/// Whether the token at index `i`, before `end`, is the word `word`.
pub(crate) fn word_at(tokens: &Vec<Token>, i: usize, end: usize, word: &str) -> (b: bool)
    requires
        end <= tokens.len(),
    ensures
        b == (i < end && is_word(tokens.deep_view()[i as int], word@)),
{
    if i < end {
        match &tokens[i] {
            Token::Ident(s) => {
                let w = String::from_str(word);
                *s == w
            },
            _ => false,
        }
    } else {
        false
    }
}

/// Appends the word `text`.
pub fn push_word(out: &mut Vec<Token>, text: &str)
    ensures
        final(out).deep_view() == old(out).deep_view().push(Tok::Ident(text@)),
{
    out.push(Token::Ident(String::from_str(text)));
    assert(out.deep_view() =~= old(out).deep_view().push(Tok::Ident(text@)));
}

/// Appends the punctuation character `c`; `joint` says that the next
/// punctuation character belongs to it.
pub fn push_punct(out: &mut Vec<Token>, c: char, joint: bool)
    ensures
        final(out).deep_view() == old(out).deep_view().push(Tok::Punct(c, joint)),
{
    out.push(Token::Punct(c, joint));
    assert(out.deep_view() =~= old(out).deep_view().push(Tok::Punct(c, joint)));
}

/// Appends the opening bracket `d`.
pub fn push_open(out: &mut Vec<Token>, d: Delim)
    ensures
        final(out).deep_view() == old(out).deep_view().push(Tok::Open(d)),
{
    out.push(Token::Open(d));
    assert(out.deep_view() =~= old(out).deep_view().push(Tok::Open(d)));
}

/// Appends the closing bracket `d`.
pub fn push_close(out: &mut Vec<Token>, d: Delim)
    ensures
        final(out).deep_view() == old(out).deep_view().push(Tok::Close(d)),
{
    out.push(Token::Close(d));
    assert(out.deep_view() =~= old(out).deep_view().push(Tok::Close(d)));
}

} // verus!
