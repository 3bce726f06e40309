//! The statement parser: a single pass over the tokens, front to back, with
//! one token of lookahead and no recovery from the first error.

pub mod ast;
pub mod grammar;
pub mod laws;
pub mod stream;

use vstd::prelude::*;
use vstd::string::*;

use crate::lexer::{tokens_view, Token, TokenView};
use ast::{
    lemma_nodes_view_empty, lemma_nodes_view_push, node_outcome, nodes_outcome, nodes_view,
    Condition, Node, NodeView, Type,
};
use grammar::{
    column_definitions, create_statement, lemma_list_items_step, lemma_list_length, declared_column, lemma_prefixed_by_nothing, lemma_prefixed_twice, from_clause, insert_columns, insert_table, insert_values, list_items,
    list_length, placeholder_condition, prefixed, rest_after, select_statement, statement, table_columns,
    unexpected_token_message, where_clause, ListKind, Parsed,
};
use crate::strings::is_word;
use stream::TokenStream;

verus! {

/// The view of a token that may be absent.
pub open spec fn found_view(found: Option<&Token>) -> Option<TokenView> {
    match found {
        Some(token) => Some(token@),
        None => None,
    }
}

/// Words the message for a token found where `expected` should stand, or
/// for the tokens ending there when `found` is `None`.
pub fn format_unexpected_token(expected: &str, found: Option<&Token>) -> (message: String)
    ensures
        message@ == unexpected_token_message(expected@, found_view(found)),
{
    let mut message = String::from_str("error: expected <");
    message.append(expected);
    match found {
        Some(token) => {
            message.append("> found <");
            message.append(token.as_str());
            message.append(">");
        },
        None => {
            message.append(">");
        },
    }
    message
}

/// Reads the `from` clause of a `delete`.
pub fn parse_from(tokens: &mut TokenStream) -> (outcome: Result<Node, String>)
    ensures
        node_outcome(outcome) == from_clause(old(tokens)@).result,
        final(tokens)@ == from_clause(old(tokens)@).rest,
{
    tokens.next();
    match tokens.next() {
        Some(Token::IdentT(table_name)) => Ok(Node::From(table_name)),
        _ => Err(String::new()),
    }
}

/// Reads the `where` clause of a `delete`.
pub fn parse_where(tokens: &mut TokenStream) -> (outcome: Result<Node, String>)
    ensures
        node_outcome(outcome) == where_clause(old(tokens)@).result,
        final(tokens)@ == where_clause(old(tokens)@).rest,
{
    tokens.next();
    match tokens.next() {
        Some(_) => {
            let column = Node::Id(String::from_str("col"));
            let value = Node::NumberC(String::from_str("5"));
            let condition = Condition::Eq(Box::new(column), Box::new(value));
            assert(condition@ == placeholder_condition());
            Ok(Node::Where(Some(condition)))
        },
        None => Ok(Node::Where(None)),
    }
}

/// Reads the parenthesised column definitions of a `create` and the
/// semicolon that closes the statement.
pub fn parse_table_columns(tokens: &mut TokenStream) -> (outcome: Result<Vec<Node>, String>)
    ensures
        nodes_outcome(outcome) == table_columns(old(tokens)@).result,
        final(tokens)@ == table_columns(old(tokens)@).rest,
{
    match tokens.next() {
        Some(Token::LeftParenthesis) => {},
        found => {
            return Err(format_unexpected_token("(", found.as_ref()));
        },
    }
    let ghost body = tokens@;
    let mut columns: Vec<Node> = Vec::new();
    proof {
        lemma_nodes_view_empty();
        lemma_prefixed_by_nothing(column_definitions(body));
    }
    loop
        invariant_except_break
            column_definitions(body) == prefixed(nodes_view(columns@), column_definitions(tokens@)),
        invariant
            old(tokens)@.len() > 0,
            old(tokens)@[0] is LeftParenthesis,
            body == old(tokens)@.skip(1),
        ensures
            column_definitions(body) == (Parsed { result: Ok(nodes_view(columns@)), rest: tokens@ }),
        decreases tokens@.len(),
    {
        let ghost unread = tokens@;
        let ghost old_columns = columns@;
        let col_name = match tokens.next() {
            Some(Token::IdentT(name)) => name,
            _ => {
                return Err(String::new());
            },
        };
        let col_type = match tokens.next() {
            Some(Token::IdentT(_)) => Type::Int,
            _ => {
                return Err(String::new());
            },
        };
        let column = Node::TableColumn(col_name, col_type, None);
        proof {
            assert(tokens@ == unread.skip(2));
            lemma_nodes_view_push(columns@, column);
            lemma_prefixed_twice(
                nodes_view(columns@),
                seq![column@],
                column_definitions(unread.skip(3)),
            );
        }
        columns.push(column);
        match tokens.next() {
            Some(Token::Comma) => {
                assert(tokens@ == unread.skip(3));
                assert(nodes_view(columns@) == nodes_view(old_columns) + seq![column@]);
                assert(column_definitions(unread) == prefixed(
                    seq![column@],
                    column_definitions(unread.skip(3)),
                ));
            },
            Some(Token::RightParenthesis) => {
                assert(tokens@ == unread.skip(3));
                break;
            },
            Some(token) => {
                return Err(format_unexpected_token(",", Some(&token)));
            },
            None => {
                return Err(String::from_str("parsing error missing ','"));
            },
        }
    }
    match tokens.peek() {
        Some(Token::Semicolon) => {
            tokens.next();
        },
        _ => {
            return Err(format_unexpected_token(";", None));
        },
    }
    Ok(columns)
}

/// Reads what follows the `create` keyword: the table's name and columns.
pub fn parse_create(tokens: &mut TokenStream) -> (outcome: Result<Node, String>)
    ensures
        node_outcome(outcome) == create_statement(old(tokens)@).result,
        final(tokens)@ == create_statement(old(tokens)@).rest,
{
    tokens.next();
    let table_name = match tokens.next() {
        Some(Token::IdentT(name)) => name,
        Some(token) => {
            return Err(format_unexpected_token("table name", Some(&token)));
        },
        None => {
            return Err(String::new());
        },
    };
    assert(tokens@ == old(tokens)@.skip(2));
    match parse_table_columns(tokens) {
        Ok(columns) => Ok(Node::TableN(table_name, columns)),
        Err(message) => Err(message),
    }
}

/// Reads the target of an `insert`.
pub fn parse_table(tokens: &mut TokenStream) -> (outcome: Result<Node, String>)
    ensures
        node_outcome(outcome) == insert_table(old(tokens)@).result,
        final(tokens)@ == insert_table(old(tokens)@).rest,
{
    tokens.next();
    tokens.next();
    assert(tokens@ == rest_after(old(tokens)@, 2));
    let columns = parse_columns(tokens);
    Ok(Node::TableN(String::from_str("table_name"), columns))
}

/// Reads the optional column names of an `insert`.
pub fn parse_columns(tokens: &mut TokenStream) -> (columns: Vec<Node>)
    ensures
        nodes_view(columns@) == insert_columns(old(tokens)@).0,
        final(tokens)@ == insert_columns(old(tokens)@).1,
{
    let mut columns: Vec<Node> = Vec::new();
    proof {
        lemma_nodes_view_empty();
    }
    match tokens.peek() {
        Some(Token::LeftParenthesis) => {
            tokens.next();
        },
        _ => {
            return columns;
        },
    }
    let ghost body = tokens@;
    let ghost mut n: int = 0;
    loop
        invariant_except_break
            0 <= n <= body.len(),
            tokens@ == body.skip(n),
            forall|i: int| 0 <= i < n ==> ListKind::Names.continues(body[i]),
            nodes_view(columns@) == list_items(body.take(n), ListKind::Names),
        ensures
            nodes_view(columns@) == list_items(
                body.take(list_length(body, ListKind::Names)),
                ListKind::Names,
            ),
            tokens@ == rest_after(body, list_length(body, ListKind::Names) + 1),
        decreases tokens@.len(),
    {
        match tokens.next() {
            Some(Token::Comma) => {
                proof {
                    lemma_list_items_step(body, ListKind::Names, n);
                    n = n + 1;
                }
            },
            Some(Token::IdentT(name)) => {
                let column = Node::Column(name);
                proof {
                    lemma_list_items_step(body, ListKind::Names, n);
                    lemma_nodes_view_push(columns@, column);
                    n = n + 1;
                }
                columns.push(column);
            },
            _ => {
                proof {
                    lemma_list_length(body, ListKind::Names, n);
                }
                break;
            },
        }
    }
    columns
}

/// Reads the values of an `insert`.
pub fn parse_values(tokens: &mut TokenStream) -> (values: Vec<Node>)
    ensures
        nodes_view(values@) == insert_values(old(tokens)@).0,
        final(tokens)@ == insert_values(old(tokens)@).1,
{
    tokens.next();
    tokens.next();
    let ghost body = tokens@;
    let mut values: Vec<Node> = Vec::new();
    let ghost mut n: int = 0;
    proof {
        lemma_nodes_view_empty();
    }
    loop
        invariant_except_break
            0 <= n <= body.len(),
            tokens@ == body.skip(n),
            forall|i: int| 0 <= i < n ==> ListKind::Literals.continues(body[i]),
            nodes_view(values@) == list_items(body.take(n), ListKind::Literals),
        invariant
            body == rest_after(old(tokens)@, 2),
        ensures
            nodes_view(values@) == list_items(
                body.take(list_length(body, ListKind::Literals)),
                ListKind::Literals,
            ),
            tokens@ == rest_after(body, list_length(body, ListKind::Literals) + 1),
            0 <= list_length(body, ListKind::Literals) <= body.len(),
        decreases tokens@.len(),
    {
        match tokens.next() {
            Some(Token::NumberT(text)) => {
                let value = Node::NumberC(text);
                proof {
                    lemma_list_items_step(body, ListKind::Literals, n);
                    lemma_nodes_view_push(values@, value);
                    n = n + 1;
                }
                values.push(value);
            },
            Some(Token::StringT(text)) => {
                let value = Node::StringC(text);
                proof {
                    lemma_list_items_step(body, ListKind::Literals, n);
                    lemma_nodes_view_push(values@, value);
                    n = n + 1;
                }
                values.push(value);
            },
            Some(Token::Comma) => {
                proof {
                    lemma_list_items_step(body, ListKind::Literals, n);
                    n = n + 1;
                }
            },
            _ => {
                proof {
                    lemma_list_length(body, ListKind::Literals, n);
                }
                break;
            },
        }
    }
    tokens.next();
    values
}

/// Reads what follows the `select` keyword: the projected columns and the
/// table they are taken from.
pub fn parse_select(tokens: &mut TokenStream) -> (outcome: Result<Node, String>)
    ensures
        node_outcome(outcome) == select_statement(old(tokens)@).result,
        final(tokens)@ == select_statement(old(tokens)@).rest,
{
    let ghost all = tokens@;
    match tokens.peek() {
        Some(Token::IdentT(word)) => {
            if is_word(word, "from") {
                return Err(String::from_str("parsing error"));
            }
        },
        _ => {},
    }
    let mut columns: Vec<Node> = Vec::new();
    let ghost mut n: int = 0;
    proof {
        lemma_nodes_view_empty();
    }
    loop
        invariant_except_break
            0 <= n <= all.len(),
            tokens@ == all.skip(n),
            forall|i: int| 0 <= i < n ==> ListKind::Projection.continues(all[i]),
            nodes_view(columns@) == list_items(all.take(n), ListKind::Projection),
        invariant
            all == old(tokens)@,
            !(all.len() > 0 && all[0].is_word("from"@)),
        ensures
            n == list_length(all, ListKind::Projection),
            0 <= n < all.len(),
            all[n].is_word("from"@),
            tokens@ == all.skip(n + 1),
            nodes_view(columns@) == list_items(all.take(n), ListKind::Projection),
        decreases tokens@.len(),
    {
        match tokens.next() {
            Some(Token::IdentT(name)) => {
                if is_word(&name, "from") {
                    proof {
                        lemma_list_length(all, ListKind::Projection, n);
                    }
                    break;
                } else {
                    let column = Node::Column(name);
                    proof {
                        lemma_list_items_step(all, ListKind::Projection, n);
                        lemma_nodes_view_push(columns@, column);
                        n = n + 1;
                    }
                    columns.push(column);
                }
            },
            Some(Token::Comma) => {
                proof {
                    lemma_list_items_step(all, ListKind::Projection, n);
                    n = n + 1;
                }
            },
            _ => {
                proof {
                    lemma_list_length(all, ListKind::Projection, n);
                }
                return Err(String::from_str("parsing error"));
            },
        }
    }
    let table = match tokens.next() {
        Some(Token::IdentT(table_name)) => Node::TableN(table_name, Vec::new()),
        _ => {
            return Err(String::from_str("parsing error"));
        },
    };
    assert(table@ == NodeView::TableN(all[n + 1]->Ident_0, Seq::empty()));
    Ok(Node::Select(Box::new(table), columns))
}

/// Something that can be read as one statement.
pub trait Parser: Sized {
    /// The tokens that `self` is read as.
    spec fn tokens(self) -> Seq<TokenView>;

    /// Reads `self` as one statement and returns its syntax tree, or the
    /// message of the first error.
    fn parse(self) -> (outcome: Result<Node, String>)
        ensures
            node_outcome(outcome) == statement(self.tokens()),
    ;
}

impl Parser for TokenStream {
    open spec fn tokens(self) -> Seq<TokenView> {
        self@
    }

    fn parse(self) -> (outcome: Result<Node, String>) {
        let mut tokens = self;
        let word = match tokens.next() {
            Some(Token::IdentT(word)) => word,
            _ => {
                return Err(String::new());
            },
        };
        if is_word(&word, "create") {
            match parse_create(&mut tokens) {
                Ok(table) => Ok(Node::Create(Box::new(table))),
                Err(message) => Err(message),
            }
        } else if is_word(&word, "delete") {
            let from = match parse_from(&mut tokens) {
                Ok(from) => from,
                Err(message) => {
                    return Err(message);
                },
            };
            match parse_where(&mut tokens) {
                Ok(condition) => Ok(Node::Delete(Box::new(from), Box::new(condition))),
                Err(message) => Err(message),
            }
        } else if is_word(&word, "insert") {
            let table = match parse_table(&mut tokens) {
                Ok(table) => table,
                Err(message) => {
                    return Err(message);
                },
            };
            let ghost unread = tokens@;
            let values = Node::Values(parse_values(&mut tokens));
            assert(values@ == NodeView::Values(insert_values(unread).0));
            Ok(Node::Insert(Box::new(table), Box::new(values)))
        } else if is_word(&word, "select") {
            parse_select(&mut tokens)
        } else {
            Err(String::from_str("undefined query type"))
        }
    }
}

impl Parser for Vec<Token> {
    open spec fn tokens(self) -> Seq<TokenView> {
        tokens_view(self@)
    }

    fn parse(self) -> (outcome: Result<Node, String>) {
        TokenStream::new(self).parse()
    }
}

} // verus!
