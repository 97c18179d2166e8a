//! The exit-code and output classification of invocations.

use dialog::backends::dialog::{get_choice, get_choices, require_success};
use dialog::{Choice, Error, InvocationResult};

fn outcome(code: Option<i32>, output: &[u8]) -> InvocationResult {
    InvocationResult { code, output: output.to_vec() }
}

#[test]
fn question_code_zero_is_yes() {
    assert_eq!(get_choice(Some(0)).unwrap(), Choice::Yes);
}

#[test]
fn question_code_one_is_no() {
    assert_eq!(get_choice(Some(1)).unwrap(), Choice::No);
}

#[test]
fn question_code_escape() {
    assert_eq!(get_choice(Some(255)).unwrap(), Choice::Escape);
}

#[test]
fn question_code_other_fails() {
    let r = get_choice(Some(42));
    assert!(matches!(r, Err(Error::ExternalToolFailed { status: Some(42) })));
}

#[test]
fn question_no_code_fails() {
    let r = get_choice(None);
    assert!(matches!(r, Err(Error::ExternalToolFailed { status: None })));
}

#[test]
fn choices_code_zero_is_yes_with_text() {
    let r = get_choices(outcome(Some(0), b"picked")).unwrap();
    assert_eq!(r.0, Choice::Yes);
    assert_eq!(r.1.as_deref(), Some("picked"));
}

#[test]
fn choices_code_one_is_cancel() {
    let r = get_choices(outcome(Some(1), b"")).unwrap();
    assert_eq!(r.0, Choice::Cancel);
    assert_eq!(r.1.as_deref(), Some(""));
}

#[test]
fn choices_code_two_is_help_with_verbatim_text() {
    let r = get_choices(outcome(Some(2), b"some\ntext\n")).unwrap();
    assert_eq!(r.0, Choice::Help);
    assert_eq!(r.1.as_deref(), Some("some\ntext\n"));
}

#[test]
fn choices_code_three_is_extra() {
    let r = get_choices(outcome(Some(3), b"x")).unwrap();
    assert_eq!(r.0, Choice::Extra);
    assert_eq!(r.1.as_deref(), Some("x"));
}

#[test]
fn choices_code_escape() {
    let r = get_choices(outcome(Some(255), b"late")).unwrap();
    assert_eq!(r.0, Choice::Escape);
    assert_eq!(r.1.as_deref(), Some("late"));
}

#[test]
fn choices_code_other_fails() {
    let r = get_choices(outcome(Some(7), b"ignored"));
    assert!(matches!(r, Err(Error::ExternalToolFailed { status: Some(7) })));
}

#[test]
fn choices_no_code_fails() {
    let r = get_choices(outcome(None, b""));
    assert!(matches!(r, Err(Error::ExternalToolFailed { status: None })));
}

#[test]
fn choices_invalid_utf8_fails_with_invalid_encoding() {
    let r = get_choices(outcome(Some(0), &[0xff, 0xfe, 0x20]));
    assert!(matches!(r, Err(Error::InvalidEncoding)));
}

#[test]
fn status_only_success() {
    assert!(require_success(Some(0)).is_ok());
}

#[test]
fn status_only_failure_keeps_code() {
    let r = require_success(Some(3));
    assert!(matches!(r, Err(Error::ExternalToolFailed { status: Some(3) })));
}

#[test]
fn status_only_no_code_fails() {
    let r = require_success(None);
    assert!(matches!(r, Err(Error::ExternalToolFailed { status: None })));
}
