//! Syntax errors.

use vstd::prelude::*;
use vstd::string::StringExecFns;

verus! {

/// What was wrong at the place where reading a declaration stopped.
#[derive(Clone, Copy, Debug, PartialEq, Eq, Structural)]
pub enum ErrorKind {
    /// The text is no sequence of Rust tokens.
    NotTokens,
    /// A name was expected: an identifier that is no keyword.
    ExpectedIdent,
    /// The `:` between a name and its type was expected.
    ExpectedColon,
    /// A type was expected.
    ExpectedType,
    /// An opening brace was expected.
    ExpectedBrace,
    /// An opening parenthesis was expected.
    ExpectedParenthesis,
    /// The opening bracket of an attribute was expected.
    ExpectedBracket,
    /// A group is not closed before the end of what encloses it.
    UnclosedGroup,
    /// The `;` that ends a section was expected.
    ExpectedSemicolon,
    /// The `,` between two entries was expected.
    ExpectedComma,
    /// The keyword `commands` was expected.
    ExpectedCommands,
    /// The braces of a handler were expected after `=>`.
    ExpectedBlock,
    /// The brackets after `#` do not hold an attribute.
    BadAttribute,
    /// The braces after `=>` do not hold a block of statements.
    BadBlock,
    /// A subcommand has the name of an earlier one.
    DuplicateVariant,
    /// Tokens follow the end of the declaration.
    TrailingTokens,
}

/// A syntax error: what was wrong, and the index of the token at which it was
/// found. The index is the number of tokens where the input ended too early.
#[derive(Clone, Copy, Debug, PartialEq, Eq, Structural)]
pub struct SyntaxError {
    pub kind: ErrorKind,
    pub position: usize,
}

impl ErrorKind {
    /// What the error says, in words.
    pub open spec fn text(self) -> Seq<char> {
        match self {
            ErrorKind::NotTokens => "the text is no sequence of tokens"@,
            ErrorKind::ExpectedIdent => "expected a name"@,
            ErrorKind::ExpectedColon => "expected `:`"@,
            ErrorKind::ExpectedType => "expected a type"@,
            ErrorKind::ExpectedBrace => "expected `{`"@,
            ErrorKind::ExpectedParenthesis => "expected `(`"@,
            ErrorKind::ExpectedBracket => "expected `[`"@,
            ErrorKind::UnclosedGroup => "this group is not closed"@,
            ErrorKind::ExpectedSemicolon => "expected `;`"@,
            ErrorKind::ExpectedComma => "expected `,`"@,
            ErrorKind::ExpectedCommands => "expected `commands`"@,
            ErrorKind::ExpectedBlock => "expected a block after `=>`"@,
            ErrorKind::BadAttribute => "this is no attribute"@,
            ErrorKind::BadBlock => "this is no block of statements"@,
            ErrorKind::DuplicateVariant => "a subcommand of this name exists already"@,
            ErrorKind::TrailingTokens => "unexpected token after the declaration"@,
        }
    }

    /// What the error says, in words.
    pub fn describe(&self) -> (words: String)
        ensures
            words@ == self.text(),
    {
        match self {
            ErrorKind::NotTokens => String::from_str("the text is no sequence of tokens"),
            ErrorKind::ExpectedIdent => String::from_str("expected a name"),
            ErrorKind::ExpectedColon => String::from_str("expected `:`"),
            ErrorKind::ExpectedType => String::from_str("expected a type"),
            ErrorKind::ExpectedBrace => String::from_str("expected `{`"),
            ErrorKind::ExpectedParenthesis => String::from_str("expected `(`"),
            ErrorKind::ExpectedBracket => String::from_str("expected `[`"),
            ErrorKind::UnclosedGroup => String::from_str("this group is not closed"),
            ErrorKind::ExpectedSemicolon => String::from_str("expected `;`"),
            ErrorKind::ExpectedComma => String::from_str("expected `,`"),
            ErrorKind::ExpectedCommands => String::from_str("expected `commands`"),
            ErrorKind::ExpectedBlock => String::from_str("expected a block after `=>`"),
            ErrorKind::BadAttribute => String::from_str("this is no attribute"),
            ErrorKind::BadBlock => String::from_str("this is no block of statements"),
            ErrorKind::DuplicateVariant => String::from_str(
                "a subcommand of this name exists already",
            ),
            ErrorKind::TrailingTokens => String::from_str(
                "unexpected token after the declaration",
            ),
        }
    }
}

/// The error of the given kind at the given place.
pub open spec fn error_at(kind: ErrorKind, position: int) -> SyntaxError {
    SyntaxError { kind, position: position as usize }
}

} // verus!
