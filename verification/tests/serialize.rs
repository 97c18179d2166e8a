//! The argument lists that dialog boxes serialize into.

use dialog::backends::Dialog;
use dialog::{Form, Gauge, Input, Menu, Message, MixedGauge, Password, Question};

fn strings(v: &[&str]) -> Vec<String> {
    v.iter().map(|s| s.to_string()).collect()
}

#[test]
fn plain_config_serializes_to_exactly_four_tokens() {
    let backend = Dialog::new();
    let args = backend.message_args(&Message::new("hello"));
    assert_eq!(args, strings(&["--msgbox", "hello", "0", "0"]));
}

#[test]
fn all_options_serialize_in_fixed_order() {
    let backend = Dialog::new()
        .set_backtitle("back".to_string())
        .set_title("title".to_string())
        .set_oklabel("ok".to_string())
        .set_extralabel("extra".to_string())
        .set_cancellabel("cancel".to_string())
        .set_helplabel("help".to_string())
        .no_cancelbutton()
        .set_insecure(true)
        .set_height(10)
        .set_width(100);
    let args = backend.message_args(&Message::new("msg"));
    assert_eq!(
        args,
        strings(&[
            "--backtitle", "back", "--title", "title", "--ok-label", "ok", "--extra-button",
            "--extra-label", "extra", "--cancel-label", "cancel", "--help-button", "--help-label",
            "help", "--no-cancel", "--insecure", "--msgbox", "msg", "10", "100",
        ])
    );
}

#[test]
fn default_configuration_is_plain() {
    let backend: Dialog = Default::default();
    let args = backend.question_args(&Question::new("q"));
    assert_eq!(args, strings(&["--yesno", "q", "0", "0"]));
}

#[test]
fn question_uses_yesno_flag() {
    let backend = Dialog::new();
    let args = backend.question_args(&Question::new("sure?"));
    assert_eq!(args, strings(&["--yesno", "sure?", "0", "0"]));
}

#[test]
fn input_default_value_trails() {
    let backend = Dialog::new();
    let mut input = Input::new("name?");
    input.default("guest");
    let args = backend.input_args(&input);
    assert_eq!(args, strings(&["--inputbox", "name?", "0", "0", "guest"]));
}

#[test]
fn input_without_default_has_no_trailing_token() {
    let backend = Dialog::new();
    let args = backend.input_args(&Input::new("name?"));
    assert_eq!(args, strings(&["--inputbox", "name?", "0", "0"]));
}

#[test]
fn password_uses_passwordbox_flag() {
    let backend = Dialog::new();
    let args = backend.password_args(&Password::new("secret?"));
    assert_eq!(args, strings(&["--passwordbox", "secret?", "0", "0"]));
}

#[test]
fn gauge_uses_mixedgauge_flag_and_percent() {
    let backend = Dialog::new();
    let args = backend.gauge_args(&Gauge::new("working", 40));
    assert_eq!(args, strings(&["--mixedgauge", "working", "0", "0", "40"]));
}

#[test]
fn mixed_gauge_percent_is_not_clamped() {
    let backend = Dialog::new();
    let args = backend.mixed_gauge_args(&MixedGauge::new("working", 255));
    assert_eq!(args, strings(&["--mixedgauge", "working", "0", "0", "255"]));
}

#[test]
fn menu_flattens_pairs_in_order() {
    let list = vec![
        ["item1".to_string(), "value1".to_string()],
        ["item2".to_string(), "value2".to_string()],
    ];
    let menu = Menu::new("choose", 10, list);
    assert_eq!(
        menu.list,
        strings(&["item1", "value1", "item2", "value2"])
    );
    let backend = Dialog::new();
    let args = backend.menu_args(&menu);
    assert_eq!(
        args,
        strings(&["--menu", "choose", "0", "0", "10", "item1", "value1", "item2", "value2"])
    );
}

#[test]
fn menu_permits_duplicate_item_names() {
    let list = vec![
        ["same".to_string(), "a".to_string()],
        ["same".to_string(), "b".to_string()],
    ];
    let menu = Menu::new("choose", 2, list);
    assert_eq!(menu.list, strings(&["same", "a", "same", "b"]));
}

#[test]
fn form_leads_with_row_count_then_entries() {
    let list = vec![(
        "Name".to_string(),
        1u8,
        1u8,
        "guest".to_string(),
        1u8,
        20u8,
        20u8,
        0u8,
    )];
    let form = Form::new("fill in", 2, list);
    let backend = Dialog::new();
    let args = backend.form_args(&form);
    assert_eq!(
        args,
        strings(&["--form", "fill in", "0", "0", "2", "Name 1 1 guest 1 20 20 0"])
    );
}

#[test]
fn backend_lookup_is_case_insensitive() {
    assert!(dialog::backends::from_str("DIALOG").is_some());
    assert!(dialog::backends::from_str("Dialog").is_some());
    assert!(dialog::backends::from_str("dialog").is_some());
    assert!(dialog::backends::from_str("gdialog").is_none());
    assert!(dialog::backends::from_str("").is_none());
}
