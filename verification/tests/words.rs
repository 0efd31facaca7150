use clank::corpus::{is_lesson_word, join_words, word_digrams};

#[test]
fn lesson_words_are_lowercase_and_long_enough() {
    assert!(is_lesson_word("the"));
    assert!(is_lesson_word("of"));
    assert!(!is_lesson_word("a"));
    assert!(!is_lesson_word(""));
    assert!(!is_lesson_word("The"));
    assert!(!is_lesson_word("don't"));
    assert!(!is_lesson_word("café"));
}

#[test]
fn digrams_of_a_word() {
    assert_eq!(word_digrams("the"), vec![('t', 'h'), ('h', 'e')]);
    assert_eq!(word_digrams("a"), vec![]);
    assert_eq!(word_digrams(""), vec![]);
}

#[test]
fn words_join_with_single_spaces() {
    assert_eq!(join_words(&vec!["the", "cat", "sat"]), "the cat sat");
    assert_eq!(join_words(&vec!["one"]), "one");
    assert_eq!(join_words(&vec![]), "");
}
