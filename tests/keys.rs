use deskd::keys::{Key, KeyCombo, KeyComboError};

#[test]
fn test_key_combo_parsing() {
    let combo = KeyCombo::parse("Ctrl+C").unwrap();
    assert_eq!(combo.modifiers.len(), 1);
    assert_eq!(combo.key, Key::Char('C'));

    let combo = KeyCombo::parse("Alt+Shift+T").unwrap();
    assert_eq!(combo.modifiers.len(), 2);
    assert_eq!(combo.key, Key::Char('T'));

    let combo = KeyCombo::parse("Ctrl+Enter").unwrap();
    assert_eq!(combo.key, Key::Enter);
}

#[test]
fn combo_modifiers_in_order() {
    let combo = KeyCombo::parse("Ctrl+C").unwrap();
    assert_eq!(combo.modifiers, vec![Key::Control]);
    let combo = KeyCombo::parse("Alt+Shift+T").unwrap();
    assert_eq!(combo.modifiers, vec![Key::Alt, Key::Shift]);
}

#[test]
fn combo_empty_is_error() {
    assert_eq!(KeyCombo::parse("").unwrap_err(), KeyComboError::Empty);
}

#[test]
fn combo_unknown_trailing_token() {
    assert_eq!(
        KeyCombo::parse("Ctrl+Zzz").unwrap_err(),
        KeyComboError::UnknownKey("Zzz".to_string())
    );
}

#[test]
fn combo_unknown_modifier() {
    assert_eq!(
        KeyCombo::parse("Hyper+C").unwrap_err(),
        KeyComboError::UnknownModifier("Hyper".to_string())
    );
}

#[test]
fn combo_case_insensitive_names() {
    let combo = KeyCombo::parse("CONTROL+meta+win+PageDown").unwrap();
    assert_eq!(combo.modifiers, vec![Key::Control, Key::Super, Key::Super]);
    assert_eq!(combo.key, Key::PageDown);
    assert_eq!(KeyCombo::parse("esc").unwrap().key, Key::Escape);
    assert_eq!(KeyCombo::parse("Shift+F12").unwrap().key, Key::F12);
}

#[test]
fn combo_single_char_kept_as_is() {
    let combo = KeyCombo::parse("a").unwrap();
    assert!(combo.modifiers.is_empty());
    assert_eq!(combo.key, Key::Char('a'));
}

#[test]
fn combo_trailing_separator_is_error() {
    assert_eq!(
        KeyCombo::parse("Ctrl+").unwrap_err(),
        KeyComboError::UnknownKey(String::new())
    );
}
