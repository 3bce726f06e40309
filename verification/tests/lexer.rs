use sql::lexer::Token;

#[test]
fn token_text_is_the_text_it_carries() {
    assert_eq!(Token::IdentT("users".to_owned()).as_str(), "users");
    assert_eq!(Token::NumberT("42".to_owned()).as_str(), "42");
    assert_eq!(Token::StringT("a b".to_owned()).as_str(), "a b");
    assert_eq!(Token::IdentT(String::new()).as_str(), "");
}

#[test]
fn punctuation_text_is_its_character() {
    assert_eq!(Token::LeftParenthesis.as_str(), "(");
    assert_eq!(Token::RightParenthesis.as_str(), ")");
    assert_eq!(Token::Comma.as_str(), ",");
    assert_eq!(Token::Semicolon.as_str(), ";");
}

#[test]
fn token_to_string_copies_the_text() {
    assert_eq!(Token::IdentT("users".to_owned()).to_string(), "users".to_owned());
    assert_eq!(Token::Semicolon.to_string(), ";".to_owned());
}

#[test]
fn token_clones_to_an_equal_token() {
    for token in [
        Token::IdentT("users".to_owned()),
        Token::LeftParenthesis,
        Token::RightParenthesis,
        Token::Comma,
        Token::Semicolon,
        Token::NumberT("42".to_owned()),
        Token::StringT("42".to_owned()),
    ] {
        assert_eq!(token.clone(), token);
    }
    assert_ne!(Token::NumberT("42".to_owned()), Token::StringT("42".to_owned()));
    assert_ne!(Token::IdentT("a".to_owned()), Token::IdentT("A".to_owned()));
}
