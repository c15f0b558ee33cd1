use adder::words::{lowercase_all, split_words};

#[test]
fn test_spilt_words() {
    let words = split_words("Mary had a little lamb, she also had a bear.");
    assert_eq!(
        words,
        vec!["mary", "had", "a", "little", "lamb,", "she", "also", "had", "a", "bear."]
    );
}

#[test]
fn empty_and_blank_text_have_no_words() {
    assert!(split_words("").is_empty());
    assert!(split_words(" \t\n  ").is_empty());
}

#[test]
fn runs_of_whitespace_are_one_delimiter() {
    assert_eq!(split_words("  One\t\tTWO \n three  "), vec!["one", "two", "three"]);
}

#[test]
fn lowercases_beyond_ascii() {
    assert_eq!(split_words("ÉCOLE Straße ΟΔΟΣ"), vec!["école", "straße", "οδος"]);
}

#[test]
fn lowercase_all_keeps_order() {
    let words = vec!["B", "a", "C!"];
    assert_eq!(lowercase_all(&words), vec!["b", "a", "c!"]);
}
