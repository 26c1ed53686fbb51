use chainclone::braces::{collapse_pairs_exec, unescape_braces};
use chainclone::chars::{chars_of, string_from_chars};

fn unescape_str(s: &str) -> String {
    let cs = chars_of(s);
    let un = unescape_braces(&cs);
    string_from_chars(&un)
}

#[test]
fn doubled_braces_collapse() {
    assert_eq!(unescape_str("{{\"a\":1}}"), "{\"a\":1}");
}

#[test]
fn nested_doubled_braces_collapse() {
    assert_eq!(
        unescape_str("{{\"sources\":{{\"A.sol\":{{\"content\":\"c\"}}}}}}"),
        "{\"sources\":{\"A.sol\":{\"content\":\"c\"}}}"
    );
}

#[test]
fn single_braces_survive() {
    assert_eq!(unescape_str("a{b}c"), "a{b}c");
    assert_eq!(unescape_str(""), "");
    assert_eq!(unescape_str("no braces"), "no braces");
}

#[test]
fn leftmost_pairs_collapse_first() {
    // Three in a row: the leftmost pair collapses, the third stands alone.
    assert_eq!(unescape_str("{{{"), "{{");
    assert_eq!(unescape_str("}}}"), "}}");
    assert_eq!(unescape_str("{{{{"), "{{");
}

#[test]
fn open_pass_runs_before_close_pass() {
    // The close pass sees the output of the open pass.
    assert_eq!(unescape_str("}{{}"), "}{}");
    assert_eq!(unescape_str("{}}{"), "{}{");
}

#[test]
fn collapse_only_the_given_character() {
    let cs = chars_of("aab{{b");
    let out = collapse_pairs_exec(&cs, 'a');
    assert_eq!(string_from_chars(&out), "ab{{b");
}

#[test]
fn round_trip_through_doubling() {
    // Double every brace the way the explorer does, then decode.
    let original = "{\"x\":{\"y\":[1,2,{}]}}";
    let mut doubled = String::new();
    for c in original.chars() {
        if c == '{' || c == '}' {
            doubled.push(c);
            doubled.push(c);
        } else {
            doubled.push(c);
        }
    }
    assert_eq!(unescape_str(&doubled), original);
}
