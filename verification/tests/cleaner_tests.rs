use chainclone::cleaner::is_placeholder;
use chainclone::chars::{chars_of, contains_sub, str_eq};

#[test]
fn counter_file_is_a_placeholder() {
    assert!(is_placeholder("src/Counter.sol"));
    assert!(is_placeholder("test/Counter.t.sol"));
    assert!(is_placeholder("script/Counter.s.sol"));
}

#[test]
fn other_files_are_kept() {
    assert!(!is_placeholder("src/Token.sol"));
    assert!(!is_placeholder("src/counter.sol"));
    assert!(!is_placeholder(""));
    assert!(!is_placeholder("src/Count.sol"));
}

#[test]
fn substring_search_finds_needles() {
    let h = chars_of("hello world");
    assert!(contains_sub(&h, &chars_of("world")));
    assert!(contains_sub(&h, &chars_of("hello")));
    assert!(contains_sub(&h, &chars_of("o w")));
    assert!(contains_sub(&h, &chars_of("")));
    assert!(!contains_sub(&h, &chars_of("worlds")));
    assert!(!contains_sub(&h, &chars_of("World")));
}

#[test]
fn str_eq_compares_characters() {
    assert!(str_eq("abc", "abc"));
    assert!(!str_eq("abc", "abd"));
    assert!(!str_eq("abc", "ab"));
    assert!(str_eq("", ""));
}
