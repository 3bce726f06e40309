//! What holds of every run of tokens: which runs are statements, and what
//! the statements parse to.

use vstd::prelude::*;

use super::ast::{node_outcome, Node, NodeView, Type};
use super::grammar::{
    column_definitions, declared_column, insert_table, lemma_list_length, list_items,
    list_length, rest_after, statement, ListKind, Parsed,
};
use super::Parser;
use crate::lexer::TokenView;

verus! {

/// A column as a `create` writes it: its name and the name of its type.
pub struct ColumnText {
    pub name: Seq<char>,
    pub written_type: Seq<char>,
}

/// The definitions of `columns` as tokens: each a name and a type, a comma
/// between two of them and a closing parenthesis behind the last.
pub open spec fn definition_tokens(columns: Seq<ColumnText>) -> Seq<TokenView>
    decreases columns.len(),
{
    if columns.len() == 0 {
        Seq::empty()
    } else {
        let first = seq![TokenView::Ident(columns[0].name), TokenView::Ident(columns[0].written_type)];
        if columns.len() == 1 {
            first.push(TokenView::RightParenthesis)
        } else {
            first.push(TokenView::Comma) + definition_tokens(columns.drop_first())
        }
    }
}

/// The nodes that `columns` are declared as: one for each, in the order
/// written, every one an integer column without a default.
pub open spec fn declared_columns(columns: Seq<ColumnText>) -> Seq<NodeView> {
    Seq::new(columns.len(), |i: int| declared_column(columns[i].name))
}

/// The statement that creates the table `table` with `columns`, as tokens.
/// The token behind `create` may be any.
pub open spec fn create_tokens(
    keyword: TokenView,
    table: Seq<char>,
    columns: Seq<ColumnText>,
) -> Seq<TokenView> {
    seq![
        TokenView::Ident("create"@),
        keyword,
        TokenView::Ident(table),
        TokenView::LeftParenthesis,
    ] + definition_tokens(columns) + seq![TokenView::Semicolon]
}

/// The definitions of one column or more, followed by anything, are read as
/// those columns, and what follows is left.
pub proof fn lemma_definitions_parse(columns: Seq<ColumnText>, rest: Seq<TokenView>)
    requires
        columns.len() >= 1,
    ensures
        column_definitions(definition_tokens(columns) + rest) == (Parsed {
            result: Ok(declared_columns(columns)),
            rest,
        }),
    decreases columns.len(),
{
    let tokens = definition_tokens(columns) + rest;
    let column = declared_column(columns[0].name);
    if columns.len() == 1 {
        assert(tokens.skip(3) =~= rest);
        assert(declared_columns(columns) =~= seq![column]);
    } else {
        let more = columns.drop_first();
        lemma_definitions_parse(more, rest);
        assert(tokens.skip(3) =~= definition_tokens(more) + rest);
        assert(declared_columns(columns) =~= seq![column] + declared_columns(more));
    }
}

/// Every `create` statement with one column or more parses, whatever
/// follows its semicolon, to a table with exactly those columns, in the
/// order declared, every one of them an integer column.
pub proof fn lemma_create_parses(
    keyword: TokenView,
    table: Seq<char>,
    columns: Seq<ColumnText>,
    rest: Seq<TokenView>,
)
    requires
        columns.len() >= 1,
    ensures
        statement(create_tokens(keyword, table, columns) + rest) == Ok::<NodeView, Seq<char>>(
            NodeView::Create(Box::new(NodeView::TableN(table, declared_columns(columns)))),
        ),
        declared_columns(columns).len() == columns.len(),
        forall|i: int|
            0 <= i < columns.len() ==> #[trigger] declared_columns(columns)[i]
                == NodeView::TableColumn(columns[i].name, Type::Int, None),
{
    let tokens = create_tokens(keyword, table, columns) + rest;
    let behind = seq![TokenView::Semicolon] + rest;
    lemma_definitions_parse(columns, behind);
    assert(tokens.skip(1).skip(2).skip(1) =~= definition_tokens(columns) + behind);
}

/// The first tokens of `tokens`, as many as a list of `kind` is long, all
/// carry the list on, and the token behind them, if there is one, does not.
pub proof fn lemma_list_length_bounds(tokens: Seq<TokenView>, kind: ListKind)
    ensures
        0 <= list_length(tokens, kind) <= tokens.len(),
        forall|i: int| 0 <= i < list_length(tokens, kind) ==> kind.continues(#[trigger] tokens[i]),
        list_length(tokens, kind) < tokens.len() ==> !kind.continues(
            tokens[list_length(tokens, kind)],
        ),
    decreases tokens.len(),
{
    if tokens.len() > 0 && kind.continues(tokens[0]) {
        let tail = tokens.drop_first();
        lemma_list_length_bounds(tail, kind);
        assert forall|i: int| 0 <= i < list_length(tokens, kind) implies kind.continues(
            #[trigger] tokens[i],
        ) by {
            if i > 0 {
                assert(tokens[i] == tail[i - 1]);
            }
        }
    }
}

/// The four words that start a statement are four different words.
pub proof fn lemma_statement_words_differ()
    ensures
        "create"@ != "delete"@,
        "create"@ != "insert"@,
        "create"@ != "select"@,
        "delete"@ != "insert"@,
        "delete"@ != "select"@,
        "insert"@ != "select"@,
{
    reveal_strlit("create");
    reveal_strlit("delete");
    reveal_strlit("insert");
    reveal_strlit("select");
    assert("create"@[0] == 'c');
    assert("delete"@[0] == 'd');
    assert("insert"@[0] == 'i');
    assert("select"@[0] == 's');
}

/// Whether `list` can stand between `select` and `from`: it is not empty
/// and holds nothing but commas and identifiers other than the word `from`.
pub open spec fn is_projection(list: Seq<TokenView>) -> bool {
    &&& list.len() >= 1
    &&& forall|i: int| 0 <= i < list.len() ==> ListKind::Projection.continues(#[trigger] list[i])
}

/// The statement that selects what `list` names from the table `table`, as
/// tokens.
pub open spec fn select_tokens(list: Seq<TokenView>, table: Seq<char>) -> Seq<TokenView> {
    seq![TokenView::Ident("select"@)] + list + seq![
        TokenView::Ident("from"@),
        TokenView::Ident(table),
    ]
}

/// Every `select` statement parses, whatever follows the table's name, to
/// a projection of the columns it names, in the order it names them.
pub proof fn lemma_select_parses(list: Seq<TokenView>, table: Seq<char>, rest: Seq<TokenView>)
    requires
        is_projection(list),
    ensures
        statement(select_tokens(list, table) + rest) == Ok::<NodeView, Seq<char>>(
            NodeView::Select(
                Box::new(NodeView::TableN(table, Seq::empty())),
                list_items(list, ListKind::Projection),
            ),
        ),
{
    lemma_statement_words_differ();
    let tokens = select_tokens(list, table) + rest;
    let unread = tokens.skip(1);
    let n = list.len() as int;
    lemma_list_length(unread, ListKind::Projection, n);
    assert(unread.take(n) =~= list);
}

/// Whether `tokens` start with a `create` statement: the word, one token
/// of any kind, the table's name, and the definitions of one column or
/// more in parentheses with a semicolon behind them.
pub open spec fn is_create(tokens: Seq<TokenView>) -> bool {
    exists|keyword: TokenView, table: Seq<char>, columns: Seq<ColumnText>, rest: Seq<TokenView>|
        columns.len() >= 1 && tokens == #[trigger] (create_tokens(keyword, table, columns) + rest)
}

/// Whether `tokens` start with a `select` statement: the word, a
/// projection, the word `from` and the table's name.
pub open spec fn is_select(tokens: Seq<TokenView>) -> bool {
    exists|list: Seq<TokenView>, table: Seq<char>, rest: Seq<TokenView>|
        is_projection(list) && tokens == #[trigger] (select_tokens(list, table) + rest)
}

/// Whether `tokens` start with a `delete` statement: the word, one token
/// of any kind, and the table's name.
pub open spec fn is_delete(tokens: Seq<TokenView>) -> bool {
    &&& tokens.len() >= 3
    &&& tokens[0].is_word("delete"@)
    &&& tokens[2] is Ident
}

/// Whether `tokens` start an `insert` statement: the word alone does.
pub open spec fn is_insert(tokens: Seq<TokenView>) -> bool {
    tokens.len() >= 1 && tokens[0].is_word("insert"@)
}

/// Whether `tokens` start with a statement of one of the four kinds.
pub open spec fn is_statement(tokens: Seq<TokenView>) -> bool {
    is_create(tokens) || is_delete(tokens) || is_insert(tokens) || is_select(tokens)
}

/// The columns that the definitions at the front of `tokens` are written
/// as, where they can be read.
pub open spec fn written_columns(tokens: Seq<TokenView>) -> Seq<ColumnText>
    decreases tokens.len(),
{
    if tokens.len() < 3 || !(tokens[0] is Ident) || !(tokens[1] is Ident) {
        Seq::empty()
    } else {
        let column = ColumnText { name: tokens[0]->Ident_0, written_type: tokens[1]->Ident_0 };
        if tokens[2] is Comma {
            seq![column] + written_columns(tokens.skip(3))
        } else {
            seq![column]
        }
    }
}

/// Where definitions can be read off the front of `tokens`, the tokens
/// are the definitions of one column or more and then what is left unread.
pub proof fn lemma_definitions_written(tokens: Seq<TokenView>)
    requires
        column_definitions(tokens).result is Ok,
    ensures
        written_columns(tokens).len() >= 1,
        tokens == definition_tokens(written_columns(tokens)) + column_definitions(tokens).rest,
    decreases tokens.len(),
{
    if tokens[2] is Comma {
        let more = tokens.skip(3);
        lemma_definitions_written(more);
        assert(written_columns(tokens).drop_first() =~= written_columns(more));
        assert(tokens =~= seq![tokens[0], tokens[1], TokenView::Comma] + more);
    }
}

/// What starts with a statement parses to a syntax tree.
pub proof fn lemma_statement_parses(tokens: Seq<TokenView>)
    requires
        is_statement(tokens),
    ensures
        statement(tokens) is Ok,
{
    lemma_statement_words_differ();
    if is_create(tokens) {
        let (keyword, table, columns, rest) = choose|
            keyword: TokenView,
            table: Seq<char>,
            columns: Seq<ColumnText>,
            rest: Seq<TokenView>,
        |
            columns.len() >= 1 && tokens == #[trigger] (create_tokens(keyword, table, columns)
                + rest);
        lemma_create_parses(keyword, table, columns, rest);
    } else if is_select(tokens) {
        let (list, table, rest) = choose|
            list: Seq<TokenView>,
            table: Seq<char>,
            rest: Seq<TokenView>,
        |
            is_projection(list) && tokens == #[trigger] (select_tokens(list, table) + rest);
        lemma_select_parses(list, table, rest);
    }
}

/// What parses to a syntax tree after the word `create` starts with a
/// `create` statement.
pub proof fn lemma_parsed_create_is_statement(tokens: Seq<TokenView>)
    requires
        statement(tokens) is Ok,
        tokens[0].is_word("create"@),
    ensures
        is_create(tokens),
{
    let unread = tokens.skip(1);
    let table = unread[1]->Ident_0;
    let written = unread.skip(2).skip(1);
    let definitions = column_definitions(written);
    lemma_definitions_written(written);
    let columns = written_columns(written);
    let rest = definitions.rest.skip(1);
    assert(tokens.skip(4) =~= written);
    assert(tokens =~= seq![tokens[0], tokens[1], tokens[2], tokens[3]] + tokens.skip(4));
    assert(tokens =~= create_tokens(unread[0], table, columns) + rest);
}

/// What parses to a syntax tree after the word `select` starts with a
/// `select` statement.
pub proof fn lemma_parsed_select_is_statement(tokens: Seq<TokenView>)
    requires
        statement(tokens) is Ok,
        tokens[0].is_word("select"@),
    ensures
        is_select(tokens),
{
    lemma_statement_words_differ();
    let unread = tokens.skip(1);
    let n = list_length(unread, ListKind::Projection);
    lemma_list_length_bounds(unread, ListKind::Projection);
    let list = unread.take(n);
    let table = unread[n + 1]->Ident_0;
    let rest = unread.skip(n + 2);
    assert(tokens =~= select_tokens(list, table) + rest);
}

/// A run of tokens parses to a syntax tree if it starts with a statement,
/// and to an error if it does not.
pub proof fn lemma_parses_iff_statement(tokens: Seq<TokenView>)
    ensures
        statement(tokens) is Ok <==> is_statement(tokens),
{
    if is_statement(tokens) {
        lemma_statement_parses(tokens);
    }
    if statement(tokens) is Ok {
        if tokens[0].is_word("create"@) {
            lemma_parsed_create_is_statement(tokens);
        } else if tokens[0].is_word("select"@) {
            lemma_parsed_select_is_statement(tokens);
        }
    }
}

/// Whether every node of `columns` is a column reference.
pub open spec fn all_columns(columns: Seq<NodeView>) -> bool {
    forall|i: int| 0 <= i < columns.len() ==> #[trigger] columns[i] is Column
}

/// Whether every node of `values` is a number or a string.
pub open spec fn all_literals(values: Seq<NodeView>) -> bool {
    forall|i: int| 0 <= i < values.len() ==> (#[trigger] values[i]) is NumberC || values[i] is StringC
}

/// Whether `node` is the whole tree of one statement: a `create` with its
/// table and one integer column or more, a `delete` with both its clauses,
/// an `insert` with its table, column references and literal values, or a
/// `select` with its table and column references.
pub open spec fn is_whole_statement(node: NodeView) -> bool {
    match node {
        NodeView::Create(table) => {
            &&& *table matches NodeView::TableN(_, columns)
            &&& columns.len() >= 1
            &&& forall|i: int|
                0 <= i < columns.len() ==> (#[trigger] columns[i] matches NodeView::TableColumn(
                    _,
                    Type::Int,
                    None,
                ))
        },
        NodeView::Delete(from, filter) => *from is From && *filter is Where,
        NodeView::Insert(table, values) => {
            &&& *table matches NodeView::TableN(_, columns)
            &&& all_columns(columns)
            &&& *values matches NodeView::Values(literals)
            &&& all_literals(literals)
        },
        NodeView::Select(table, columns) => {
            &&& *table matches NodeView::TableN(_, none)
            &&& none.len() == 0
            &&& all_columns(columns)
        },
        _ => false,
    }
}

/// The items of a list of names or of projected columns are column
/// references, and those of a list of values are numbers and strings.
pub proof fn lemma_list_items_kind(tokens: Seq<TokenView>, kind: ListKind)
    ensures
        kind != ListKind::Literals ==> all_columns(list_items(tokens, kind)),
        kind == ListKind::Literals ==> all_literals(list_items(tokens, kind)),
    decreases tokens.len(),
{
    if tokens.len() > 0 {
        lemma_list_items_kind(tokens.drop_last(), kind);
    }
}

/// A syntax tree that a run of tokens parses to is the whole tree of one
/// statement, never a part of one.
pub proof fn lemma_parsed_is_whole(tokens: Seq<TokenView>)
    requires
        statement(tokens) is Ok,
    ensures
        is_whole_statement(statement(tokens)->Ok_0),
{
    let unread = tokens.skip(1);
    if tokens[0].is_word("create"@) {
        lemma_parsed_create_is_statement(tokens);
        let written = unread.skip(2).skip(1);
        lemma_definitions_written(written);
        lemma_definitions_parse(written_columns(written), column_definitions(written).rest);
    } else if tokens[0].is_word("insert"@) {
        let target = rest_after(unread, 2);
        if target.len() > 0 && target[0] is LeftParenthesis {
            let body = target.skip(1);
            lemma_list_items_kind(
                body.take(list_length(body, ListKind::Names)),
                ListKind::Names,
            );
        }
        let body = rest_after(insert_table(unread).rest, 2);
        lemma_list_items_kind(
            body.take(list_length(body, ListKind::Literals)),
            ListKind::Literals,
        );
    } else if tokens[0].is_word("select"@) {
        lemma_list_items_kind(
            unread.take(list_length(unread, ListKind::Projection)),
            ListKind::Projection,
        );
    }
}

/// Parsing is a function of the tokens: two runs of [`Parser::parse`] on
/// things that are read as the same tokens give the same tree or the same
/// message.
pub proof fn lemma_equal_tokens_parse_equally<A: Parser, B: Parser>(
    first: A,
    second: B,
    of_first: Result<Node, String>,
    of_second: Result<Node, String>,
)
    requires
        first.tokens() == second.tokens(),
        call_ensures(A::parse, (first,), of_first),
        call_ensures(B::parse, (second,), of_second),
    ensures
        node_outcome(of_first) == node_outcome(of_second),
{
}

} // verus!
