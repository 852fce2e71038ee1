use garlock::keyboard::{classify_key, is_control, KeyResult};
use garlock::keyboard::{
    KEY_ALT_L, KEY_BACKSPACE, KEY_C, KEY_CAPS_LOCK, KEY_DELETE, KEY_ESCAPE, KEY_F1, KEY_F12,
    KEY_HOME, KEY_KP_ENTER, KEY_RETURN, KEY_SHIFT_L, KEY_U,
};

#[test]
fn special_keys() {
    assert_eq!(classify_key(KEY_ESCAPE, false, "\u{1b}"), KeyResult::Escape);
    assert_eq!(classify_key(KEY_RETURN, false, "\r"), KeyResult::Enter);
    assert_eq!(classify_key(KEY_KP_ENTER, true, "\r"), KeyResult::Enter);
    assert_eq!(classify_key(KEY_BACKSPACE, false, "\u{8}"), KeyResult::Backspace);
}

#[test]
fn modifiers_and_ignored_keys() {
    assert_eq!(classify_key(KEY_SHIFT_L, false, ""), KeyResult::Modifier);
    assert_eq!(classify_key(KEY_CAPS_LOCK, false, ""), KeyResult::Modifier);
    assert_eq!(classify_key(KEY_ALT_L, true, ""), KeyResult::Modifier);
    assert_eq!(classify_key(KEY_F1, false, ""), KeyResult::Ignored);
    assert_eq!(classify_key(KEY_F12, false, ""), KeyResult::Ignored);
    assert_eq!(classify_key(KEY_HOME, false, ""), KeyResult::Ignored);
    assert_eq!(classify_key(KEY_DELETE, false, "\u{7f}"), KeyResult::Ignored);
}

#[test]
fn ctrl_shortcuts() {
    assert_eq!(classify_key(KEY_U, true, "\u{15}"), KeyResult::Clear);
    assert_eq!(classify_key(KEY_C, true, "\u{3}"), KeyResult::Clear);
    assert_eq!(classify_key(0x61, true, "\u{1}"), KeyResult::Ignored);
}

#[test]
fn printable_characters() {
    assert_eq!(classify_key(0x61, false, "a"), KeyResult::Char('a'));
    assert_eq!(classify_key(KEY_U, false, "u"), KeyResult::Char('u'));
    assert_eq!(classify_key(0x0e9, false, "é"), KeyResult::Char('é'));
    assert_eq!(classify_key(0x1000, false, "日本"), KeyResult::Char('日'));
    assert_eq!(classify_key(0x1000, false, ""), KeyResult::Ignored);
    assert_eq!(classify_key(0x1000, false, "\u{85}"), KeyResult::Ignored);
}

#[test]
fn control_characters() {
    assert!(is_control('\0'));
    assert!(is_control('\u{1f}'));
    assert!(is_control('\u{7f}'));
    assert!(is_control('\u{9f}'));
    assert!(!is_control(' '));
    assert!(!is_control('\u{a0}'));
    for c in ['a', '\n', '\u{80}', 'é', '\u{9e}'] {
        assert_eq!(is_control(c), c.is_control());
    }
}
