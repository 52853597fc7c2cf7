use website_monitor::words::{check_guess, is_even, most_frequent_in, most_frequent_word};

#[test]
fn most_frequent_word_of_sentence() {
    let text = "the quick brown fox jumps over the lazy dog the quick brown fox";
    assert_eq!(most_frequent_word(text), ("the".to_string(), 3));
}

#[test]
fn most_frequent_word_splits_on_any_whitespace() {
    assert_eq!(most_frequent_word("  x\ty \n x  "), ("x".to_string(), 2));
}

#[test]
fn most_frequent_word_tie_goes_to_first() {
    assert_eq!(most_frequent_word("b a a b"), ("b".to_string(), 2));
}

#[test]
fn most_frequent_word_of_empty_text() {
    assert_eq!(most_frequent_word(""), (String::new(), 0));
    assert_eq!(most_frequent_word("   "), (String::new(), 0));
}

#[test]
fn most_frequent_in_list() {
    let ws: Vec<String> = ["a", "b", "b", "c"].iter().map(|s| s.to_string()).collect();
    assert_eq!(most_frequent_in(&ws), ("b".to_string(), 2));
}

#[test]
fn check_guess_compares() {
    assert_eq!(check_guess(7, 7), 0);
    assert_eq!(check_guess(9, 7), 1);
    assert_eq!(check_guess(1, 7), -1);
}

#[test]
fn is_even_on_signs() {
    assert!(is_even(0));
    assert!(is_even(4));
    assert!(is_even(-6));
    assert!(!is_even(-3));
    assert!(!is_even(7));
}
