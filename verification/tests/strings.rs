use sql::strings::{into_strings, is_word};

#[test]
fn into_strings_converts_in_order() {
    assert_eq!(
        into_strings(vec!["a", "", "b c"]),
        vec!["a".to_owned(), String::new(), "b c".to_owned()]
    );
    assert_eq!(into_strings(Vec::<String>::new()), Vec::<String>::new());
}

#[test]
fn is_word_compares_the_whole_text() {
    assert!(is_word(&"from".to_owned(), "from"));
    assert!(!is_word(&"From".to_owned(), "from"));
    assert!(!is_word(&"fro".to_owned(), "from"));
    assert!(!is_word(&"from ".to_owned(), "from"));
    assert!(is_word(&String::new(), ""));
}
