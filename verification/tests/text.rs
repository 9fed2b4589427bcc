//! Pieces of text.

use burn_lora::text::{join_dotted, push_comma_list, push_decimal, text_contains};

fn decimal(number: usize) -> String {
    let mut text = String::from(">");
    push_decimal(&mut text, number);
    text
}

#[test]
fn numbers_are_written_in_decimal() {
    assert_eq!(decimal(0), ">0");
    assert_eq!(decimal(9), ">9");
    assert_eq!(decimal(10), ">10");
    assert_eq!(decimal(1234567890), ">1234567890");
    assert_eq!(decimal(usize::MAX), format!(">{}", usize::MAX));
}

#[test]
fn lists_have_commas_between() {
    let list = |numbers: Vec<usize>| {
        let mut text = String::new();
        push_comma_list(&mut text, &numbers);
        text
    };
    assert_eq!(list(vec![]), "");
    assert_eq!(list(vec![7]), "7");
    assert_eq!(list(vec![4, 8, 15]), "4, 8, 15");
}

#[test]
fn paths_have_dots_between() {
    let path = |names: &[&str]| {
        let names: Vec<String> = names.iter().map(|name| name.to_string()).collect();
        join_dotted(&names)
    };
    assert_eq!(path(&[]), "");
    assert_eq!(path(&["a"]), "a");
    assert_eq!(path(&["layers", "0", "q_proj"]), "layers.0.q_proj");
    assert_eq!(path(&["", ""]), ".");
}

#[test]
fn parts_are_found() {
    assert!(text_contains("layers.0.q_proj", "q_proj"));
    assert!(text_contains("layers.0.q_proj", "layers"));
    assert!(text_contains("aab", "ab"));
    assert!(text_contains("abc", ""));
    assert!(text_contains("", ""));
    assert!(!text_contains("", "a"));
    assert!(!text_contains("abc", "abcd"));
    assert!(!text_contains("abc", "ac"));
    assert!(text_contains("schl\u{fc}ssel", "\u{fc}ss"));
}
