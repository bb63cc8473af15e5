use mira_sharer::inputs::{FromJsKey, Key, KeyError};

fn key(s: &str) -> Key {
    Key::from_js_key(s).unwrap()
}

#[test]
fn digits_type_themselves() {
    assert_eq!(key("Digit0"), Key::Layout('0'));
    assert_eq!(key("Digit9"), Key::Layout('9'));
}

#[test]
fn numpad_digits_type_themselves() {
    assert_eq!(key("Numpad7"), Key::Layout('7'));
}

#[test]
fn longer_numpad_codes_are_unknown() {
    assert!(Key::from_js_key("NumpadAdd").is_err());
    assert!(Key::from_js_key("NumpadEnter").is_err());
}

#[test]
fn letters_are_lower_cased() {
    assert_eq!(key("KeyA"), Key::Layout('a'));
    assert_eq!(key("KeyZ"), Key::Layout('z'));
}

#[test]
fn bare_prefixes_use_their_last_character() {
    assert_eq!(key("Digit"), Key::Layout('t'));
    assert_eq!(key("Key"), Key::Layout('y'));
}

#[test]
fn named_keys() {
    assert_eq!(key("Backspace"), Key::Backspace);
    assert_eq!(key("Tab"), Key::Tab);
    assert_eq!(key("Enter"), Key::Return);
    assert_eq!(key("Escape"), Key::Escape);
    assert_eq!(key("Space"), Key::Space);
    assert_eq!(key("ArrowLeft"), Key::LeftArrow);
    assert_eq!(key("ArrowDown"), Key::DownArrow);
    assert_eq!(key("F1"), Key::F1);
    assert_eq!(key("F12"), Key::F12);
    assert_eq!(key("PageDown"), Key::PageDown);
    assert_eq!(key("Delete"), Key::Delete);
    assert_eq!(key("Home"), Key::Home);
    assert_eq!(key("End"), Key::End);
    assert_eq!(key("CapsLock"), Key::CapsLock);
}

#[test]
fn modifier_sides_are_merged() {
    assert_eq!(key("ShiftLeft"), Key::Shift);
    assert_eq!(key("ShiftRight"), Key::Shift);
    assert_eq!(key("ControlRight"), Key::Control);
    assert_eq!(key("AltLeft"), Key::Alt);
    assert_eq!(key("MetaRight"), Key::Meta);
}

#[test]
fn punctuation_keys_type_their_character() {
    assert_eq!(key("BracketLeft"), Key::Layout('['));
    assert_eq!(key("BracketRight"), Key::Layout(']'));
    assert_eq!(key("Backslash"), Key::Layout('\\'));
    assert_eq!(key("Semicolon"), Key::Layout(';'));
    assert_eq!(key("Backquote"), Key::Layout('`'));
    assert_eq!(key("Quote"), Key::Layout('\''));
    assert_eq!(key("Equal"), Key::Layout('='));
    assert_eq!(key("Minus"), Key::Layout('-'));
    assert_eq!(key("Comma"), Key::Layout(','));
    assert_eq!(key("Period"), Key::Layout('.'));
    assert_eq!(key("Slash"), Key::Layout('/'));
}

#[test]
fn unsupported_keys_report_their_code() {
    match Key::from_js_key("Pause") {
        Err(KeyError::UnknownKey(code)) => assert_eq!(code, "Pause"),
        other => panic!("unexpected {:?}", other),
    }
    assert!(Key::from_js_key("").is_err());
    assert!(Key::from_js_key("enter").is_err());
}

#[test]
fn unknown_key_message_names_the_code() {
    let e = Key::from_js_key("NumpadEnter").unwrap_err();
    assert_eq!(e.message(), "Unknown key: NumpadEnter");
    assert_eq!(Key::from_js_key("").unwrap_err().message(), "Unknown key: ");
}
