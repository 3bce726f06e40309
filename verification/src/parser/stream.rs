//! A cursor over tokens with one token of lookahead.

use vstd::prelude::*;

use crate::lexer::{tokens_view, Token, TokenView};

verus! {

/// The tokens of a statement that have not been consumed yet.
///
/// A stream is read front to back, once: [`TokenStream::next`] hands the
/// front token out and [`TokenStream::peek`] looks at it without taking it.
pub struct TokenStream {
    /// The unread tokens, last to first, so that the front token is popped
    /// off the end.
    pending: Vec<Token>,
}

impl View for TokenStream {
    type V = Seq<TokenView>;

    /// The unread tokens, front first.
    closed spec fn view(&self) -> Seq<TokenView> {
        tokens_view(self.pending@.reverse())
    }
}

impl TokenStream {
    /// A stream that yields `tokens` from first to last.
    pub fn new(tokens: Vec<Token>) -> (stream: TokenStream)
        ensures
            stream@ == tokens_view(tokens@),
    {
        let mut tokens = tokens;
        let ghost all = tokens@;
        let mut pending: Vec<Token> = Vec::new();
        while tokens.len() > 0
            invariant
                tokens@.len() <= all.len(),
                tokens@ == all.take(tokens@.len() as int),
                pending@.len() + tokens@.len() == all.len(),
                forall|i: int| 0 <= i < pending@.len() ==> pending@[i] == all[all.len() - 1 - i],
            decreases tokens@.len(),
        {
            if let Some(token) = tokens.pop() {
                pending.push(token);
            }
        }
        TokenStream { pending }
    }

    /// Takes the front token off the stream, if there is one.
    pub fn next(&mut self) -> (token: Option<Token>)
        ensures
            match token {
                Some(t) => old(self)@.len() > 0 && t@ == old(self)@[0] && final(self)@ == old(
                    self,
                )@.skip(1),
                None => old(self)@.len() == 0 && final(self)@ == old(self)@,
            },
    {
        self.pending.pop()
    }

    /// The front token, left in place.
    pub fn peek(&self) -> (token: Option<&Token>)
        ensures
            match token {
                Some(t) => self@.len() > 0 && t@ == self@[0],
                None => self@.len() == 0,
            },
    {
        let n = self.pending.len();
        if n > 0 {
            Some(&self.pending[n - 1])
        } else {
            None
        }
    }
}

} // verus!
