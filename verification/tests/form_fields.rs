//! The eight-token form field groups: flattening, parsing, and the round
//! trip between them.

use dialog::form::{parse_form_entry, parse_u8_token, split_spaces};
use dialog::{Form, MixedForm, PasswordForm};

fn entry() -> (String, u8, u8, String, u8, u8, u8, u8) {
    (
        "Login".to_string(),
        2u8,
        3u8,
        "admin".to_string(),
        4u8,
        5u8,
        30u8,
        255u8,
    )
}

#[test]
fn entry_round_trips_through_its_flattened_group() {
    let original = entry();
    let form = Form::new("t", 1, vec![original.clone()]);
    assert_eq!(form.list.len(), 1);
    assert_eq!(form.list[0], "Login 2 3 admin 4 5 30 255");
    let parsed = parse_form_entry(&form.list[0]).unwrap();
    assert_eq!(parsed, original);
}

#[test]
fn mixed_form_flattens_like_form() {
    let form = MixedForm::new("t", 1, vec![entry()]);
    assert_eq!(form.list[0], "Login 2 3 admin 4 5 30 255");
}

#[test]
fn password_form_flattens_like_form() {
    let form = PasswordForm::new("t", 1, vec![entry()]);
    assert_eq!(form.list[0], "Login 2 3 admin 4 5 30 255");
}

#[test]
fn empty_fields_still_round_trip() {
    let original = (
        "".to_string(),
        0u8,
        0u8,
        "".to_string(),
        0u8,
        0u8,
        0u8,
        0u8,
    );
    let form = Form::new("t", 1, vec![original.clone()]);
    assert_eq!(form.list[0], " 0 0  0 0 0 0");
    let parsed = parse_form_entry(&form.list[0]).unwrap();
    assert_eq!(parsed, original);
}

#[test]
fn entry_order_is_preserved() {
    let first = entry();
    let second = (
        "Shell".to_string(),
        6u8,
        7u8,
        "sh".to_string(),
        8u8,
        9u8,
        10u8,
        11u8,
    );
    let form = Form::new("t", 2, vec![first, second]);
    assert_eq!(form.list[0], "Login 2 3 admin 4 5 30 255");
    assert_eq!(form.list[1], "Shell 6 7 sh 8 9 10 11");
}

#[test]
fn group_with_wrong_token_count_does_not_parse() {
    assert!(parse_form_entry("only three tokens").is_none());
    assert!(parse_form_entry("a 1 1 b 1 1 1 1 extra").is_none());
    assert!(parse_form_entry("").is_none());
}

#[test]
fn group_with_bad_number_does_not_parse() {
    assert!(parse_form_entry("a x 1 b 1 1 1 1").is_none());
    assert!(parse_form_entry("a 256 1 b 1 1 1 1").is_none());
    assert!(parse_form_entry("a 1 1 b 1 1 1 99999999999").is_none());
}

#[test]
fn number_tokens_parse_exactly() {
    assert_eq!(parse_u8_token("0"), Some(0));
    assert_eq!(parse_u8_token("7"), Some(7));
    assert_eq!(parse_u8_token("255"), Some(255));
    assert_eq!(parse_u8_token("007"), Some(7));
    assert_eq!(parse_u8_token("256"), None);
    assert_eq!(parse_u8_token(""), None);
    assert_eq!(parse_u8_token("1a"), None);
    assert_eq!(parse_u8_token("-1"), None);
}

#[test]
fn split_keeps_empty_tokens() {
    assert_eq!(split_spaces("a b"), vec!["a", "b"]);
    assert_eq!(split_spaces(""), vec![""]);
    assert_eq!(split_spaces("a  b"), vec!["a", "", "b"]);
    assert_eq!(split_spaces(" "), vec!["", ""]);
}
