//! The grammar, as functions from a run of tokens to what the parser makes of it.
//!
//! Every function here takes the tokens that are still unread and says which
//! node or error reading them yields and which tokens are left afterwards.

use vstd::prelude::*;

use super::ast::{ConditionView, NodeView, Type};
use crate::lexer::TokenView;

verus! {

/// The outcome of reading one construct off the front of a run of tokens:
/// what was read, or the message it was refused with, and the tokens that
/// are left unread.
pub struct Parsed<T> {
    pub result: Result<T, Seq<char>>,
    pub rest: Seq<TokenView>,
}

/// What is left of `tokens` once `n` of them were asked for: reading past
/// the end leaves nothing.
pub open spec fn rest_after(tokens: Seq<TokenView>, n: int) -> Seq<TokenView> {
    if 0 <= n <= tokens.len() {
        tokens.skip(n)
    } else {
        Seq::empty()
    }
}

/// The message for a token found where `expected` should stand, or for the
/// tokens ending there.
pub open spec fn unexpected_token_message(expected: Seq<char>, found: Option<TokenView>) -> Seq<
    char,
> {
    match found {
        Some(token) => "error: expected <"@ + expected + "> found <"@ + token.text() + ">"@,
        None => "error: expected <"@ + expected + ">"@,
    }
}

/// The three comma-separated lists of the grammar.
pub enum ListKind {
    /// The column names of an `insert`: identifiers.
    Names,
    /// The values of an `insert`: numbers and strings.
    Literals,
    /// The projected columns of a `select`: identifiers up to the word `from`.
    Projection,
}

impl ListKind {
    /// Whether `token` carries on a list of this kind. The first token that
    /// does not ends the list.
    pub open spec fn continues(self, token: TokenView) -> bool {
        match self {
            ListKind::Names => token is Comma || token is Ident,
            ListKind::Literals => token is Comma || token is Number || token is Str,
            ListKind::Projection => token is Comma || (token is Ident && !token.is_word("from"@)),
        }
    }

    /// The node that `token` adds to a list of this kind, if it adds one:
    /// a separator adds none.
    pub open spec fn item(self, token: TokenView) -> Option<NodeView> {
        match (self, token) {
            (ListKind::Names, TokenView::Ident(name)) => Some(NodeView::Column(name)),
            (ListKind::Projection, TokenView::Ident(name)) => Some(NodeView::Column(name)),
            (ListKind::Literals, TokenView::Number(text)) => Some(NodeView::NumberC(text)),
            (ListKind::Literals, TokenView::Str(text)) => Some(NodeView::StringC(text)),
            _ => None,
        }
    }

    /// [`ListKind::item`] as a function of the token alone.
    pub open spec fn item_fn(self) -> spec_fn(TokenView) -> Option<NodeView> {
        |token: TokenView| self.item(token)
    }
}

/// How many tokens at the front of `tokens` carry on a list of `kind`.
pub open spec fn list_length(tokens: Seq<TokenView>, kind: ListKind) -> int
    decreases tokens.len(),
{
    if tokens.len() == 0 || !kind.continues(tokens[0]) {
        0
    } else {
        1 + list_length(tokens.drop_first(), kind)
    }
}

/// The nodes of a list of `kind` written as `tokens`, in the order written.
pub open spec fn list_items(tokens: Seq<TokenView>, kind: ListKind) -> Seq<NodeView> {
    tokens.filter_map(kind.item_fn())
}

/// A list of `kind` is `n` tokens long where the first `n` tokens carry it
/// on and the one behind them, if there is one, does not.
pub proof fn lemma_list_length(tokens: Seq<TokenView>, kind: ListKind, n: int)
    requires
        0 <= n <= tokens.len(),
        forall|i: int| 0 <= i < n ==> kind.continues(tokens[i]),
        n < tokens.len() ==> !kind.continues(tokens[n]),
    ensures
        list_length(tokens, kind) == n,
    decreases n,
{
    if n > 0 {
        lemma_list_length(tokens.drop_first(), kind, n - 1);
    }
}

/// One more token at the end of a list adds its item, if it has one, at
/// the end of the list's items.
pub proof fn lemma_list_items_step(tokens: Seq<TokenView>, kind: ListKind, n: int)
    requires
        0 <= n < tokens.len(),
    ensures
        list_items(tokens.take(n + 1), kind) == match kind.item(tokens[n]) {
            Some(node) => list_items(tokens.take(n), kind).push(node),
            None => list_items(tokens.take(n), kind),
        },
{
    tokens.lemma_filter_map_take_succ(kind.item_fn(), n);
}

/// The message that every failure without a better one carries.
pub open spec fn no_message() -> Seq<char> {
    Seq::empty()
}

/// The `from` clause of a `delete`: a keyword that is not looked at, then
/// the name of the table.
pub open spec fn from_clause(tokens: Seq<TokenView>) -> Parsed<NodeView> {
    Parsed {
        result: if tokens.len() >= 2 && tokens[1] is Ident {
            Ok(NodeView::From(tokens[1]->Ident_0))
        } else {
            Err(no_message())
        },
        rest: rest_after(tokens, 2),
    }
}

/// The condition that stands for whatever follows the `where` keyword.
pub open spec fn placeholder_condition() -> ConditionView {
    ConditionView::Eq(Box::new(NodeView::Id("col"@)), Box::new(NodeView::NumberC("5"@)))
}

/// The `where` clause of a `delete`: a keyword that is not looked at, then
/// one token that stands for a whole condition. Without that token the
/// clause has no condition.
pub open spec fn where_clause(tokens: Seq<TokenView>) -> Parsed<NodeView> {
    Parsed {
        result: Ok(
            NodeView::Where(
                if tokens.len() >= 2 {
                    Some(placeholder_condition())
                } else {
                    None
                },
            ),
        ),
        rest: rest_after(tokens, 2),
    }
}

/// The parenthesised column names of an `insert`. Anything but an opening
/// parenthesis means that there are none and is left unread. The list runs
/// to the first token that is neither a name nor a comma and takes that
/// token with it.
pub open spec fn insert_columns(tokens: Seq<TokenView>) -> (Seq<NodeView>, Seq<TokenView>) {
    if tokens.len() > 0 && tokens[0] is LeftParenthesis {
        let body = tokens.skip(1);
        let n = list_length(body, ListKind::Names);
        (list_items(body.take(n), ListKind::Names), rest_after(body, n + 1))
    } else {
        (Seq::empty(), tokens)
    }
}

/// The name under which every `insert` records its table.
pub open spec fn insert_table_name() -> Seq<char> {
    "table_name"@
}

/// The target of an `insert`: a keyword and a table name, neither of them
/// looked at, then the optional column names.
pub open spec fn insert_table(tokens: Seq<TokenView>) -> Parsed<NodeView> {
    let (columns, rest) = insert_columns(rest_after(tokens, 2));
    Parsed { result: Ok(NodeView::TableN(insert_table_name(), columns)), rest }
}

/// The values of an `insert`: a keyword and an opening parenthesis, neither
/// of them looked at, then numbers and strings up to the first token that is
/// neither of them nor a comma. That token and the one behind it are taken
/// along.
pub open spec fn insert_values(tokens: Seq<TokenView>) -> (Seq<NodeView>, Seq<TokenView>) {
    let body = rest_after(tokens, 2);
    let n = list_length(body, ListKind::Literals);
    (list_items(body.take(n), ListKind::Literals), rest_after(body, n + 2))
}

/// The message of every failure in a `select`.
pub open spec fn select_error_message() -> Seq<char> {
    "parsing error"@
}

/// What follows the `select` keyword: the projected columns, the word
/// `from`, and the name of the table. The word `from` in first place is
/// refused without being read.
pub open spec fn select_statement(tokens: Seq<TokenView>) -> Parsed<NodeView> {
    let n = list_length(tokens, ListKind::Projection);
    if tokens.len() > 0 && tokens[0].is_word("from"@) {
        Parsed { result: Err(select_error_message()), rest: tokens }
    } else if n < tokens.len() && tokens[n].is_word("from"@) {
        Parsed {
            result: if n + 1 < tokens.len() && tokens[n + 1] is Ident {
                Ok(
                    NodeView::Select(
                        Box::new(NodeView::TableN(tokens[n + 1]->Ident_0, Seq::empty())),
                        list_items(tokens.take(n), ListKind::Projection),
                    ),
                )
            } else {
                Err(select_error_message())
            },
            rest: rest_after(tokens, n + 2),
        }
    } else {
        Parsed { result: Err(select_error_message()), rest: rest_after(tokens, n + 1) }
    }
}

/// The message for the tokens ending where a column definition has to be
/// followed by a comma or a closing parenthesis.
pub open spec fn missing_comma_message() -> Seq<char> {
    "parsing error missing ','"@
}

/// The column that a definition with the name `name` declares. Whatever
/// type the definition names, the column is an integer column.
pub open spec fn declared_column(name: Seq<char>) -> NodeView {
    NodeView::TableColumn(name, Type::Int, None)
}

/// `parsed` with `columns` put in front of the columns it holds.
pub open spec fn prefixed(columns: Seq<NodeView>, parsed: Parsed<Seq<NodeView>>) -> Parsed<
    Seq<NodeView>,
> {
    Parsed {
        result: match parsed.result {
            Ok(more) => Ok(columns + more),
            Err(message) => Err(message),
        },
        rest: parsed.rest,
    }
}

/// Putting no columns in front changes nothing.
pub proof fn lemma_prefixed_by_nothing(parsed: Parsed<Seq<NodeView>>)
    ensures
        prefixed(Seq::empty(), parsed) == parsed,
{
}

/// Putting `second` in front, and then `first`, puts `first + second` in
/// front.
pub proof fn lemma_prefixed_twice(
    first: Seq<NodeView>,
    second: Seq<NodeView>,
    parsed: Parsed<Seq<NodeView>>,
)
    ensures
        prefixed(first, prefixed(second, parsed)) == prefixed(first + second, parsed),
{
    if let Ok(more) = parsed.result {
        assert(first + (second + more) =~= (first + second) + more);
    }
}

/// The column definitions of a `create`, from the first name on: a name and
/// a type, each an identifier, then a comma and more definitions, or the
/// closing parenthesis.
pub open spec fn column_definitions(tokens: Seq<TokenView>) -> Parsed<Seq<NodeView>>
    decreases tokens.len(),
{
    if tokens.len() == 0 || !(tokens[0] is Ident) {
        Parsed { result: Err(no_message()), rest: rest_after(tokens, 1) }
    } else if tokens.len() == 1 || !(tokens[1] is Ident) {
        Parsed { result: Err(no_message()), rest: rest_after(tokens, 2) }
    } else if tokens.len() == 2 {
        Parsed { result: Err(missing_comma_message()), rest: Seq::empty() }
    } else {
        let column = declared_column(tokens[0]->Ident_0);
        match tokens[2] {
            TokenView::Comma => prefixed(seq![column], column_definitions(tokens.skip(3))),
            TokenView::RightParenthesis => Parsed {
                result: Ok(seq![column]),
                rest: tokens.skip(3),
            },
            other => Parsed {
                result: Err(unexpected_token_message(","@, Some(other))),
                rest: tokens.skip(3),
            },
        }
    }
}

/// The parenthesised column definitions of a `create` and the semicolon
/// behind them. A token in place of the semicolon is left unread.
pub open spec fn table_columns(tokens: Seq<TokenView>) -> Parsed<Seq<NodeView>> {
    if tokens.len() == 0 {
        Parsed { result: Err(unexpected_token_message("("@, None)), rest: tokens }
    } else if !(tokens[0] is LeftParenthesis) {
        Parsed {
            result: Err(unexpected_token_message("("@, Some(tokens[0]))),
            rest: tokens.skip(1),
        }
    } else {
        let definitions = column_definitions(tokens.skip(1));
        if definitions.result is Err {
            definitions
        } else if definitions.rest.len() > 0 && definitions.rest[0] is Semicolon {
            Parsed { result: definitions.result, rest: definitions.rest.skip(1) }
        } else {
            Parsed { result: Err(unexpected_token_message(";"@, None)), rest: definitions.rest }
        }
    }
}

/// What follows the `create` keyword: a keyword that is not looked at, the
/// name of the table, and its columns.
pub open spec fn create_statement(tokens: Seq<TokenView>) -> Parsed<NodeView> {
    if tokens.len() < 2 {
        Parsed { result: Err(no_message()), rest: Seq::empty() }
    } else {
        match tokens[1] {
            TokenView::Ident(name) => {
                let columns = table_columns(tokens.skip(2));
                Parsed {
                    result: match columns.result {
                        Ok(columns) => Ok(NodeView::TableN(name, columns)),
                        Err(message) => Err(message),
                    },
                    rest: columns.rest,
                }
            },
            other => Parsed {
                result: Err(unexpected_token_message("table name"@, Some(other))),
                rest: tokens.skip(2),
            },
        }
    }
}

/// The message for a statement that starts with a word that names none.
pub open spec fn undefined_query_message() -> Seq<char> {
    "undefined query type"@
}

/// What a whole run of tokens parses to. The first token has to be one of
/// the words `create`, `delete`, `insert` and `select`, in lower case, and
/// decides how the rest is read.
pub open spec fn statement(tokens: Seq<TokenView>) -> Result<NodeView, Seq<char>> {
    if tokens.len() == 0 || !(tokens[0] is Ident) {
        Err(no_message())
    } else {
        let rest = tokens.skip(1);
        if tokens[0].is_word("create"@) {
            match create_statement(rest).result {
                Ok(table) => Ok(NodeView::Create(Box::new(table))),
                Err(message) => Err(message),
            }
        } else if tokens[0].is_word("delete"@) {
            let from = from_clause(rest);
            match from.result {
                Ok(table) => Ok(
                    NodeView::Delete(
                        Box::new(table),
                        Box::new(where_clause(from.rest).result->Ok_0),
                    ),
                ),
                Err(message) => Err(message),
            }
        } else if tokens[0].is_word("insert"@) {
            let table = insert_table(rest);
            Ok(
                NodeView::Insert(
                    Box::new(table.result->Ok_0),
                    Box::new(NodeView::Values(insert_values(table.rest).0)),
                ),
            )
        } else if tokens[0].is_word("select"@) {
            select_statement(rest).result
        } else {
            Err(undefined_query_message())
        }
    }
}

} // verus!
