use lfd::config::text_equals;
use lfd::template::{expand_template, split_command};
use lfd::text::{chars_of, clone_all, replace_all, trim};

fn words(v: &[&str]) -> Vec<String> {
    v.iter().map(|s| s.to_string()).collect()
}

#[test]
fn substitution_replaces_every_occurrence() {
    let template = words(&["echo", "XVAR-XVAR"]);
    let r = expand_template(&template, "XVAR", "1");
    assert_eq!(r, words(&["echo", "1-1"]));
}

#[test]
fn substitution_reaches_the_program_name() {
    let template = words(&["FILEX", "-n", "plain"]);
    let r = expand_template(&template, "FILEX", "cat");
    assert_eq!(r, words(&["cat", "-n", "plain"]));
}

#[test]
fn substitution_keeps_length_and_order() {
    let template = words(&["a", "b", "c"]);
    let r = expand_template(&template, "Z", "q");
    assert_eq!(r, template);
}

#[test]
fn replace_without_occurrence_is_unchanged() {
    assert_eq!(replace_all("hello", "XVAR", "1"), "hello");
}

#[test]
fn replace_takes_leftmost_non_overlapping() {
    assert_eq!(replace_all("aaa", "aa", "X"), "Xa");
    assert_eq!(replace_all("aaaa", "aa", "X"), "XX");
}

#[test]
fn replace_is_case_sensitive() {
    assert_eq!(replace_all("xvar XVAR", "XVAR", "v"), "xvar v");
}

#[test]
fn replace_with_longer_and_empty_values() {
    assert_eq!(replace_all("<T>", "T", "long value"), "<long value>");
    assert_eq!(replace_all("a-T-b", "T", ""), "a--b");
}

#[test]
fn replace_agrees_with_std_on_empty_token() {
    assert_eq!(replace_all("ab", "", "x"), "ab".replace("", "x"));
    assert_eq!(replace_all("", "", "x"), "x");
}

#[test]
fn replace_handles_multibyte_text() {
    assert_eq!(replace_all("é→TOK←é", "TOK", "ü"), "é→ü←é");
}

#[test]
fn trim_removes_surrounding_whitespace() {
    assert_eq!(trim("  value\t\r"), "value");
    assert_eq!(trim("in side"), "in side");
    assert_eq!(trim(" a b "), "a b");
}

#[test]
fn trim_removes_unicode_whitespace() {
    assert_eq!(trim("\u{3000}x\u{a0}"), "x");
}

#[test]
fn trim_of_blank_is_empty() {
    assert_eq!(trim(""), "");
    assert_eq!(trim(" \t  "), "");
}

#[test]
fn chars_and_equality() {
    assert_eq!(chars_of("añb"), vec!['a', 'ñ', 'b']);
    assert!(text_equals("-q", "-q"));
    assert!(!text_equals("-q", "-Q"));
    assert!(!text_equals("-q", "--quiet"));
}

#[test]
fn clone_all_copies() {
    let v = words(&["x", "y"]);
    assert_eq!(clone_all(&v), v);
}

#[test]
fn split_command_parts() {
    let c = split_command(words(&["touch", "a", "b"])).unwrap();
    assert_eq!(c.program, "touch");
    assert_eq!(c.args, words(&["a", "b"]));
    assert!(split_command(Vec::new()).is_none());
}
