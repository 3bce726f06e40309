//! The lexical units a statement is made of.
//!
//! Turning source text into tokens is the caller's business: this module only
//! fixes the vocabulary that the parser consumes.

use vstd::prelude::*;
use vstd::string::*;

verus! {

/// One lexical unit of a statement.
#[derive(Debug, PartialEq, Eq)]
pub enum Token {
    /// A keyword or a name, in the case it was written in.
    IdentT(String),
    LeftParenthesis,
    RightParenthesis,
    Comma,
    Semicolon,
    /// A numeric literal, kept as its text.
    NumberT(String),
    /// A string literal, kept as its text.
    StringT(String),
}

/// What a [`Token`] stands for: its kind, and for the kinds that carry text,
/// that text as a sequence of characters.
pub enum TokenView {
    Ident(Seq<char>),
    LeftParenthesis,
    RightParenthesis,
    Comma,
    Semicolon,
    Number(Seq<char>),
    Str(Seq<char>),
}

impl TokenView {
    /// How a token is written in a message: punctuation as its one character,
    /// every other kind as the text it carries.
    pub open spec fn text(self) -> Seq<char> {
        match self {
            TokenView::Ident(text) => text,
            TokenView::LeftParenthesis => "("@,
            TokenView::RightParenthesis => ")"@,
            TokenView::Comma => ","@,
            TokenView::Semicolon => ";"@,
            TokenView::Number(text) => text,
            TokenView::Str(text) => text,
        }
    }

    /// Whether this is the identifier written exactly as `word`.
    pub open spec fn is_word(self, word: Seq<char>) -> bool {
        self == TokenView::Ident(word)
    }
}

impl View for Token {
    type V = TokenView;

    open spec fn view(&self) -> TokenView {
        match self {
            Token::IdentT(text) => TokenView::Ident(text@),
            Token::LeftParenthesis => TokenView::LeftParenthesis,
            Token::RightParenthesis => TokenView::RightParenthesis,
            Token::Comma => TokenView::Comma,
            Token::Semicolon => TokenView::Semicolon,
            Token::NumberT(text) => TokenView::Number(text@),
            Token::StringT(text) => TokenView::Str(text@),
        }
    }
}

/// The views of a run of tokens, in the same order.
pub open spec fn tokens_view(tokens: Seq<Token>) -> Seq<TokenView> {
    tokens.map_values(|t: Token| t@)
}

impl Clone for Token {
    fn clone(&self) -> (copy: Token)
        ensures
            copy == *self,
    {
        match self {
            Token::IdentT(text) => Token::IdentT(text.clone()),
            Token::LeftParenthesis => Token::LeftParenthesis,
            Token::RightParenthesis => Token::RightParenthesis,
            Token::Comma => Token::Comma,
            Token::Semicolon => Token::Semicolon,
            Token::NumberT(text) => Token::NumberT(text.clone()),
            Token::StringT(text) => Token::StringT(text.clone()),
        }
    }
}

impl Token {
    /// The text of the token as it appears in a message.
    pub fn as_str(&self) -> (text: &str)
        ensures
            text@ == self@.text(),
    {
        match self {
            Token::IdentT(text) => text.as_str(),
            Token::LeftParenthesis => "(",
            Token::RightParenthesis => ")",
            Token::Comma => ",",
            Token::Semicolon => ";",
            Token::NumberT(text) => text.as_str(),
            Token::StringT(text) => text.as_str(),
        }
    }

    /// An owned copy of [`Token::as_str`].
    pub fn to_string(&self) -> (text: String)
        ensures
            text@ == self@.text(),
    {
        String::from_str(self.as_str())
    }
}

} // verus!
