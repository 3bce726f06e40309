use sql::lexer::Token;
use sql::parser::ast::{Condition, Node, Type};
use sql::parser::stream::TokenStream;
use sql::parser::{
    format_unexpected_token, parse_columns, parse_create, parse_from, parse_select, parse_table,
    parse_table_columns, parse_values, parse_where, Parser,
};

/// Splits `text` into tokens: punctuation by itself, text between single
/// quotes as a string, a word that starts with a digit as a number and any
/// other word as an identifier.
fn tokens(text: &str) -> Vec<Token> {
    let mut tokens = vec![];
    let mut chars = text.chars().peekable();
    while let Some(&c) = chars.peek() {
        match c {
            ' ' | '\t' | '\n' => {
                chars.next();
            }
            '(' => {
                chars.next();
                tokens.push(Token::LeftParenthesis);
            }
            ')' => {
                chars.next();
                tokens.push(Token::RightParenthesis);
            }
            ',' => {
                chars.next();
                tokens.push(Token::Comma);
            }
            ';' => {
                chars.next();
                tokens.push(Token::Semicolon);
            }
            '\'' => {
                chars.next();
                let mut text = String::new();
                while let Some(c) = chars.next() {
                    if c == '\'' {
                        break;
                    }
                    text.push(c);
                }
                tokens.push(Token::StringT(text));
            }
            _ => {
                let mut word = String::new();
                while let Some(&c) = chars.peek() {
                    if " \t\n(),;'".contains(c) {
                        break;
                    }
                    word.push(c);
                    chars.next();
                }
                if word.starts_with(|c: char| c.is_ascii_digit()) {
                    tokens.push(Token::NumberT(word));
                } else {
                    tokens.push(Token::IdentT(word));
                }
            }
        }
    }
    tokens
}

fn stream_of(text: &str) -> TokenStream {
    TokenStream::new(tokens(text))
}

/// Everything that is left in `stream`, front first.
fn drain(mut stream: TokenStream) -> Vec<Token> {
    let mut left = vec![];
    while let Some(token) = stream.next() {
        left.push(token);
    }
    left
}

fn column(name: &str) -> Node {
    Node::TableColumn(name.to_owned(), Type::Int, None)
}

fn projected(name: &str) -> Node {
    Node::Column(name.to_owned())
}

fn table(name: &str, columns: Vec<Node>) -> Node {
    Node::TableN(name.to_owned(), columns)
}

fn err(message: &str) -> Result<Node, String> {
    Err(message.to_owned())
}

fn placeholder() -> Condition {
    Condition::Eq(
        Box::new(Node::Id("col".to_owned())),
        Box::new(Node::NumberC("5".to_owned())),
    )
}

#[test]
fn helper_splits_text_into_tokens() {
    assert_eq!(
        tokens("insert into t (a) values (10, 'x y');"),
        vec![
            Token::IdentT("insert".to_owned()),
            Token::IdentT("into".to_owned()),
            Token::IdentT("t".to_owned()),
            Token::LeftParenthesis,
            Token::IdentT("a".to_owned()),
            Token::RightParenthesis,
            Token::IdentT("values".to_owned()),
            Token::LeftParenthesis,
            Token::NumberT("10".to_owned()),
            Token::Comma,
            Token::StringT("x y".to_owned()),
            Token::RightParenthesis,
            Token::Semicolon,
        ]
    );
}

#[test]
fn creates_single_column_table() {
    assert_eq!(
        tokens("create table table_name (col int);").parse(),
        Ok(Node::Create(Box::new(table("table_name", vec![column("col")]))))
    );
}

#[test]
fn creates_table_with_list_of_columns() {
    assert_eq!(
        tokens("create table table_name (col1 int, col2 int, col3 int);").parse(),
        Ok(Node::Create(Box::new(table(
            "table_name",
            vec![column("col1"), column("col2"), column("col3")]
        ))))
    );
}

#[test]
fn create_keeps_three_columns_in_declaration_order() {
    assert_eq!(
        tokens("create table t (a int, b int, c int);").parse(),
        Ok(Node::Create(Box::new(table(
            "t",
            vec![column("a"), column("b"), column("c")]
        ))))
    );
}

#[test]
fn create_with_any_number_of_columns_keeps_them_all() {
    for n in 1..=40usize {
        let names: Vec<String> = (0..n).map(|i| format!("c{}", i)).collect();
        let mut all = vec![
            Token::IdentT("create".to_owned()),
            Token::IdentT("table".to_owned()),
            Token::IdentT("t".to_owned()),
            Token::LeftParenthesis,
        ];
        for (i, name) in names.iter().enumerate() {
            if i > 0 {
                all.push(Token::Comma);
            }
            all.push(Token::IdentT(name.clone()));
            all.push(Token::IdentT("int".to_owned()));
        }
        all.push(Token::RightParenthesis);
        all.push(Token::Semicolon);
        let expected: Vec<Node> = names.iter().map(|name| column(name)).collect();
        assert_eq!(expected.len(), n);
        assert_eq!(all.parse(), Ok(Node::Create(Box::new(table("t", expected)))));
    }
}

#[test]
fn create_maps_every_type_name_to_integer() {
    assert_eq!(
        tokens("create table t (a varchar, b whatever);").parse(),
        Ok(Node::Create(Box::new(table("t", vec![column("a"), column("b")]))))
    );
}

#[test]
fn create_does_not_look_at_the_word_after_create() {
    assert_eq!(
        tokens("create , t (a int);").parse(),
        Ok(Node::Create(Box::new(table("t", vec![column("a")]))))
    );
}

#[test]
fn create_ignores_what_follows_the_semicolon() {
    assert_eq!(
        tokens("create table t (a int); select").parse(),
        Ok(Node::Create(Box::new(table("t", vec![column("a")]))))
    );
}

#[test]
fn create_reports_an_identifier_in_place_of_the_comma() {
    assert_eq!(
        tokens("create table t (a int b int);").parse(),
        err("error: expected <,> found <b>")
    );
    assert_eq!(
        tokens("create table table_name (col1 int col2 int);").parse(),
        err("error: expected <,> found <col2>")
    );
}

#[test]
fn create_reports_any_token_in_place_of_the_comma() {
    assert_eq!(
        tokens("create table t (a int ; b int);").parse(),
        err("error: expected <,> found <;>")
    );
    assert_eq!(
        tokens("create table t (a int 5);").parse(),
        err("error: expected <,> found <5>")
    );
    assert_eq!(
        tokens("create table t (a int (").parse(),
        err("error: expected <,> found <(>")
    );
}

#[test]
fn create_reports_tokens_ending_after_a_column() {
    assert_eq!(
        tokens("create table t (a int").parse(),
        err("parsing error missing ','")
    );
    assert_eq!(
        tokens("create table t (a int, b int").parse(),
        err("parsing error missing ','")
    );
}

#[test]
fn create_reports_a_missing_opening_parenthesis() {
    assert_eq!(
        tokens("create table table_name col int);").parse(),
        err("error: expected <(> found <col>")
    );
    assert_eq!(
        tokens("create table table_name").parse(),
        err("error: expected <(>")
    );
}

#[test]
fn create_reports_a_table_name_that_is_no_identifier() {
    assert_eq!(
        tokens("create table (a int);").parse(),
        err("error: expected <table name> found <(>")
    );
    assert_eq!(
        tokens("create table 12 (a int);").parse(),
        err("error: expected <table name> found <12>")
    );
}

#[test]
fn create_without_a_table_name_fails_without_a_message() {
    assert_eq!(tokens("create").parse(), err(""));
    assert_eq!(tokens("create table").parse(), err(""));
}

#[test]
fn create_with_a_broken_column_fails_without_a_message() {
    assert_eq!(tokens("create table t ();").parse(), err(""));
    assert_eq!(tokens("create table t (a);").parse(), err(""));
    assert_eq!(tokens("create table t (a int,);").parse(), err(""));
    assert_eq!(tokens("create table t (a int, b").parse(), err(""));
    assert_eq!(tokens("create table t (").parse(), err(""));
}

#[test]
fn create_reports_a_missing_semicolon() {
    assert_eq!(
        tokens("create table t (a int)").parse(),
        err("error: expected <;>")
    );
    assert_eq!(
        tokens("create table t (a int) x").parse(),
        err("error: expected <;>")
    );
}

#[test]
fn selects_two_columns() {
    assert_eq!(
        tokens("select col1, col2 from t").parse(),
        Ok(Node::Select(
            Box::new(table("t", vec![])),
            vec![projected("col1"), projected("col2")]
        ))
    );
}

#[test]
fn select_without_columns_fails() {
    assert_eq!(tokens("select from t").parse(), err("parsing error"));
}

#[test]
fn select_takes_columns_without_commas_between_them() {
    assert_eq!(
        tokens("select a b,, c from t;").parse(),
        Ok(Node::Select(
            Box::new(table("t", vec![])),
            vec![projected("a"), projected("b"), projected("c")]
        ))
    );
}

#[test]
fn select_of_commas_alone_projects_nothing() {
    assert_eq!(
        tokens("select , from t").parse(),
        Ok(Node::Select(Box::new(table("t", vec![])), vec![]))
    );
}

#[test]
fn select_knows_the_word_from_in_lower_case_only() {
    assert_eq!(tokens("select a FROM t").parse(), err("parsing error"));
    assert_eq!(
        tokens("select FROM from t").parse(),
        Ok(Node::Select(Box::new(table("t", vec![])), vec![projected("FROM")]))
    );
}

#[test]
fn select_fails_on_a_token_that_is_no_column() {
    assert_eq!(tokens("select a, 5 from t").parse(), err("parsing error"));
    assert_eq!(tokens("select a ( from t").parse(), err("parsing error"));
    assert_eq!(tokens("select a, b").parse(), err("parsing error"));
    assert_eq!(tokens("select").parse(), err("parsing error"));
}

#[test]
fn select_fails_without_a_table_name() {
    assert_eq!(tokens("select a from").parse(), err("parsing error"));
    assert_eq!(tokens("select a from 5").parse(), err("parsing error"));
    assert_eq!(tokens("select a from ;").parse(), err("parsing error"));
}

#[test]
fn deletes_with_the_placeholder_condition() {
    assert_eq!(
        tokens("delete from t where a = 7").parse(),
        Ok(Node::Delete(
            Box::new(Node::From("t".to_owned())),
            Box::new(Node::Where(Some(placeholder())))
        ))
    );
    assert_eq!(
        tokens("delete from t where ;").parse(),
        Ok(Node::Delete(
            Box::new(Node::From("t".to_owned())),
            Box::new(Node::Where(Some(placeholder())))
        ))
    );
}

#[test]
fn deletes_without_a_condition() {
    let expected = Ok(Node::Delete(
        Box::new(Node::From("t".to_owned())),
        Box::new(Node::Where(None)),
    ));
    assert_eq!(tokens("delete from t where").parse(), expected);
    assert_eq!(tokens("delete from t").parse(), expected);
}

#[test]
fn delete_fails_without_a_table_name() {
    assert_eq!(tokens("delete").parse(), err(""));
    assert_eq!(tokens("delete from").parse(), err(""));
    assert_eq!(tokens("delete from 5 where x").parse(), err(""));
    assert_eq!(tokens("delete from ( where x").parse(), err(""));
}

#[test]
fn inserts_under_the_placeholder_table_name() {
    assert_eq!(
        tokens("insert into users values (1, 'two', 3);").parse(),
        Ok(Node::Insert(
            Box::new(table("table_name", vec![])),
            Box::new(Node::Values(vec![
                Node::NumberC("1".to_owned()),
                Node::StringC("two".to_owned()),
                Node::NumberC("3".to_owned()),
            ]))
        ))
    );
}

#[test]
fn inserts_with_a_column_list() {
    assert_eq!(
        tokens("insert into users (id, name) values (1, 'two');").parse(),
        Ok(Node::Insert(
            Box::new(table("table_name", vec![projected("id"), projected("name")])),
            Box::new(Node::Values(vec![
                Node::NumberC("1".to_owned()),
                Node::StringC("two".to_owned()),
            ]))
        ))
    );
}

#[test]
fn insert_never_fails() {
    let empty = Ok(Node::Insert(
        Box::new(table("table_name", vec![])),
        Box::new(Node::Values(vec![])),
    ));
    assert_eq!(tokens("insert").parse(), empty);
    assert_eq!(tokens("insert into").parse(), empty);
    assert_eq!(tokens("insert into t").parse(), empty);
    assert_eq!(tokens("insert ; ; ; ; ;").parse(), empty);
    assert_eq!(
        tokens("insert into t (a, b").parse(),
        Ok(Node::Insert(
            Box::new(table("table_name", vec![projected("a"), projected("b")])),
            Box::new(Node::Values(vec![])),
        ))
    );
}

#[test]
fn insert_values_stop_at_the_first_token_that_is_none() {
    assert_eq!(
        tokens("insert into t values (1, x, 2);").parse(),
        Ok(Node::Insert(
            Box::new(table("table_name", vec![])),
            Box::new(Node::Values(vec![Node::NumberC("1".to_owned())])),
        ))
    );
}

#[test]
fn statement_must_start_with_a_known_word() {
    assert_eq!(tokens("").parse(), err(""));
    assert_eq!(tokens("( create").parse(), err(""));
    assert_eq!(tokens("5").parse(), err(""));
    assert_eq!(tokens("'select'").parse(), err(""));
    assert_eq!(tokens("update t").parse(), err("undefined query type"));
    assert_eq!(tokens("CREATE table t (a int);").parse(), err("undefined query type"));
    assert_eq!(tokens("Select a from t").parse(), err("undefined query type"));
}

#[test]
fn parsing_twice_gives_the_same() {
    for text in [
        "create table t (a int, b int);",
        "create table t (a int b int);",
        "select a, b from t",
        "select from t",
        "delete from t where x",
        "insert into t (a) values (1);",
        "drop table t",
        "",
    ] {
        assert_eq!(tokens(text).parse(), tokens(text).parse());
        assert_eq!(tokens(text).parse(), stream_of(text).parse());
    }
}

#[test]
fn malformed_statements_give_an_error() {
    for text in [
        "create",
        "create table t",
        "create table t (",
        "create table t (a",
        "create table t (a int",
        "create table t (a int,",
        "create table t (a int)",
        "create table t a int);",
        "create table t (a int b int);",
        "create table t (a int,, b int);",
        "create table t (1 int);",
        "select",
        "select from t",
        "select a",
        "select a from",
        "select a from (",
        "select a; from t",
        "delete",
        "delete from",
        "delete from ,",
        "table t",
        ";",
    ] {
        assert!(tokens(text).parse().is_err(), "{}", text);
    }
}

#[test]
fn formats_an_unexpected_token() {
    assert_eq!(
        format_unexpected_token("table name", Some(&Token::Comma)),
        "error: expected <table name> found <,>"
    );
    assert_eq!(
        format_unexpected_token(",", Some(&Token::IdentT("b".to_owned()))),
        "error: expected <,> found <b>"
    );
    assert_eq!(
        format_unexpected_token(")", Some(&Token::StringT("it".to_owned()))),
        "error: expected <)> found <it>"
    );
    assert_eq!(format_unexpected_token(";", None), "error: expected <;>");
    assert_eq!(format_unexpected_token("", None), "error: expected <>");
}

#[test]
fn stream_hands_tokens_out_in_order() {
    let mut stream = stream_of("a , 1");
    assert_eq!(stream.peek(), Some(&Token::IdentT("a".to_owned())));
    assert_eq!(stream.peek(), Some(&Token::IdentT("a".to_owned())));
    assert_eq!(stream.next(), Some(Token::IdentT("a".to_owned())));
    assert_eq!(stream.peek(), Some(&Token::Comma));
    assert_eq!(stream.next(), Some(Token::Comma));
    assert_eq!(stream.next(), Some(Token::NumberT("1".to_owned())));
    assert_eq!(stream.peek(), None);
    assert_eq!(stream.next(), None);
    assert_eq!(stream.next(), None);
}

#[test]
fn parse_create_leaves_what_follows_the_statement() {
    let mut stream = stream_of("table t (a int); select x");
    assert_eq!(parse_create(&mut stream), Ok(table("t", vec![column("a")])));
    assert_eq!(drain(stream), tokens("select x"));
}

#[test]
fn parse_create_stops_behind_the_token_it_refuses() {
    let mut stream = stream_of("table 5 (a int);");
    assert_eq!(
        parse_create(&mut stream),
        err("error: expected <table name> found <5>")
    );
    assert_eq!(drain(stream), tokens("(a int);"));
}

#[test]
fn parse_table_columns_leaves_a_token_in_place_of_the_semicolon() {
    let mut stream = stream_of("(a int, b int) x y");
    assert_eq!(
        parse_table_columns(&mut stream),
        Err("error: expected <;>".to_owned())
    );
    assert_eq!(drain(stream), tokens("x y"));
}

#[test]
fn parse_table_columns_takes_the_token_it_refuses() {
    let mut stream = stream_of("(a int b int);");
    assert_eq!(
        parse_table_columns(&mut stream),
        Err("error: expected <,> found <b>".to_owned())
    );
    assert_eq!(drain(stream), tokens("int);"));

    let mut stream = stream_of("a int);");
    assert_eq!(
        parse_table_columns(&mut stream),
        Err("error: expected <(> found <a>".to_owned())
    );
    assert_eq!(drain(stream), tokens("int);"));

    let mut stream = stream_of("(a 5 , b int);");
    assert_eq!(parse_table_columns(&mut stream), Err("".to_owned()));
    assert_eq!(drain(stream), tokens(", b int);"));
}

#[test]
fn parse_table_columns_reads_the_columns() {
    let mut stream = stream_of("(a int, b int); rest");
    assert_eq!(
        parse_table_columns(&mut stream),
        Ok(vec![column("a"), column("b")])
    );
    assert_eq!(drain(stream), tokens("rest"));
}

#[test]
fn parse_from_skips_one_token_and_reads_the_name() {
    let mut stream = stream_of("from t where x");
    assert_eq!(parse_from(&mut stream), Ok(Node::From("t".to_owned())));
    assert_eq!(drain(stream), tokens("where x"));

    let mut stream = stream_of("( t where x");
    assert_eq!(parse_from(&mut stream), Ok(Node::From("t".to_owned())));

    let mut stream = stream_of("from 5 where x");
    assert_eq!(parse_from(&mut stream), err(""));
    assert_eq!(drain(stream), tokens("where x"));
}

#[test]
fn parse_where_takes_one_token_for_the_condition() {
    let mut stream = stream_of("where a = 5");
    assert_eq!(parse_where(&mut stream), Ok(Node::Where(Some(placeholder()))));
    assert_eq!(drain(stream), tokens("= 5"));

    let mut stream = stream_of("where");
    assert_eq!(parse_where(&mut stream), Ok(Node::Where(None)));
    assert_eq!(drain(stream), tokens(""));

    let mut stream = stream_of("");
    assert_eq!(parse_where(&mut stream), Ok(Node::Where(None)));
}

#[test]
fn parse_table_skips_two_tokens() {
    let mut stream = stream_of("into users (id) values (1);");
    assert_eq!(parse_table(&mut stream), Ok(table("table_name", vec![projected("id")])));
    assert_eq!(drain(stream), tokens("values (1);"));

    let mut stream = stream_of("into users values (1);");
    assert_eq!(parse_table(&mut stream), Ok(table("table_name", vec![])));
    assert_eq!(drain(stream), tokens("values (1);"));
}

#[test]
fn parse_columns_reads_to_the_first_token_that_is_no_name() {
    let mut stream = stream_of("(a, b c) values");
    assert_eq!(
        parse_columns(&mut stream),
        vec![projected("a"), projected("b"), projected("c")]
    );
    assert_eq!(drain(stream), tokens("values"));

    let mut stream = stream_of("(a, 1, b) values");
    assert_eq!(parse_columns(&mut stream), vec![projected("a")]);
    assert_eq!(drain(stream), tokens(", b) values"));

    let mut stream = stream_of("a, b)");
    assert_eq!(parse_columns(&mut stream), vec![]);
    assert_eq!(drain(stream), tokens("a, b)"));

    let mut stream = stream_of("");
    assert_eq!(parse_columns(&mut stream), vec![]);
}

#[test]
fn parse_values_takes_one_token_behind_the_list() {
    let mut stream = stream_of("values (1, 'a' 2); select x");
    assert_eq!(
        parse_values(&mut stream),
        vec![
            Node::NumberC("1".to_owned()),
            Node::StringC("a".to_owned()),
            Node::NumberC("2".to_owned()),
        ]
    );
    assert_eq!(drain(stream), tokens("select x"));

    let mut stream = stream_of("values (1");
    assert_eq!(parse_values(&mut stream), vec![Node::NumberC("1".to_owned())]);
    assert_eq!(drain(stream), tokens(""));

    let mut stream = stream_of("values");
    assert_eq!(parse_values(&mut stream), vec![]);
}

#[test]
fn parse_select_leaves_a_leading_from_unread() {
    let mut stream = stream_of("from t");
    assert_eq!(parse_select(&mut stream), err("parsing error"));
    assert_eq!(drain(stream), tokens("from t"));
}

#[test]
fn parse_select_stops_behind_the_table_name() {
    let mut stream = stream_of("a, b from t where x");
    assert_eq!(
        parse_select(&mut stream),
        Ok(Node::Select(
            Box::new(table("t", vec![])),
            vec![projected("a"), projected("b")]
        ))
    );
    assert_eq!(drain(stream), tokens("where x"));

    let mut stream = stream_of("a 5 from t");
    assert_eq!(parse_select(&mut stream), err("parsing error"));
    assert_eq!(drain(stream), tokens("from t"));

    let mut stream = stream_of("a from 5 x");
    assert_eq!(parse_select(&mut stream), err("parsing error"));
    assert_eq!(drain(stream), tokens("x"));
}

#[test]
fn nodes_clone_to_equal_nodes() {
    for text in [
        "create table t (a int, b int);",
        "select a, b from t",
        "delete from t where x",
        "insert into t (a) values (1, 'x');",
    ] {
        let node = tokens(text).parse().unwrap();
        assert_eq!(node.clone(), node);
    }
    assert_eq!(placeholder().clone(), placeholder());
}
