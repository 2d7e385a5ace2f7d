use paudle::game::PaudleMsg;
use paudle::input::handle_keypress;

fn key(s: &str) -> Vec<char> {
    s.chars().collect()
}

#[test]
fn backspace_key_maps_to_backspace() {
    let msg = handle_keypress(&key("Backspace"), false, false, false, false);
    assert_eq!(msg, Some(PaudleMsg::Backspace));
}

#[test]
fn enter_key_maps_to_submit() {
    let msg = handle_keypress(&key("Enter"), false, false, false, false);
    assert_eq!(msg, Some(PaudleMsg::Submit));
}

#[test]
fn plain_letter_is_typed() {
    let msg = handle_keypress(&key("a"), false, false, false, false);
    assert_eq!(msg, Some(PaudleMsg::TypeLetter('a')));
    let msg = handle_keypress(&key("Z"), false, false, false, false);
    assert_eq!(msg, Some(PaudleMsg::TypeLetter('Z')));
}

#[test]
fn digits_and_punctuation_are_ignored() {
    assert_eq!(handle_keypress(&key("1"), false, false, false, false), None);
    assert_eq!(handle_keypress(&key("!"), false, false, false, false), None);
}

#[test]
fn other_named_keys_are_ignored() {
    assert_eq!(handle_keypress(&key("Shift"), false, false, false, false), None);
    assert_eq!(handle_keypress(&key("ArrowUp"), false, false, false, false), None);
}

#[test]
fn modifier_combinations_are_ignored() {
    assert_eq!(handle_keypress(&key("a"), true, false, false, false), None);
    assert_eq!(handle_keypress(&key("a"), false, true, false, false), None);
    assert_eq!(handle_keypress(&key("a"), false, false, true, false), None);
    assert_eq!(handle_keypress(&key("a"), false, false, false, true), None);
}

#[test]
fn modifiers_do_not_mask_named_keys() {
    let msg = handle_keypress(&key("Enter"), false, false, false, true);
    assert_eq!(msg, Some(PaudleMsg::Submit));
}

#[test]
fn empty_key_name_is_ignored() {
    assert_eq!(handle_keypress(&key(""), false, false, false, false), None);
}
