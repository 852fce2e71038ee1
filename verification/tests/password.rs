use garlock::password::Password;

#[test]
fn test_push_pop() {
    let mut pw = Password::new();
    assert!(pw.is_empty());

    pw.push('h');
    pw.push('e');
    pw.push('l');
    pw.push('l');
    pw.push('o');

    assert_eq!(pw.as_str(), "hello");
    assert_eq!(pw.char_count(), 5);

    pw.pop();
    assert_eq!(pw.as_str(), "hell");

    pw.clear();
    assert!(pw.is_empty());
}

#[test]
fn test_unicode() {
    let mut pw = Password::new();

    pw.push('日');
    pw.push('本');
    pw.push('語');

    assert_eq!(pw.as_str(), "日本語");
    assert_eq!(pw.char_count(), 3);
    assert_eq!(pw.len(), 9); // 3 bytes per character

    pw.pop();
    assert_eq!(pw.as_str(), "日本");
}

#[test]
fn test_mixed_characters() {
    let mut pw = Password::new();

    pw.push('a');
    pw.push('é');
    pw.push('日');
    pw.push('!');

    assert_eq!(pw.char_count(), 4);

    pw.pop(); // !
    pw.pop(); // 日
    assert_eq!(pw.as_str(), "aé");
}

#[test]
fn push_fails_when_full_and_leaves_password() {
    let mut pw = Password::with_capacity(4);
    assert!(pw.push('a'));
    assert!(pw.push('é'));
    // 'a' (1 byte) + 'é' (2 bytes) leaves one byte; '日' needs three
    assert!(!pw.push('日'));
    assert_eq!(pw.as_str(), "aé");
    assert!(pw.push('b'));
    assert_eq!(pw.len(), 4);
    assert!(!pw.push('c'));
    assert_eq!(pw.as_str(), "aéb");
}

#[test]
fn four_byte_characters_round_trip() {
    let mut pw = Password::new();
    assert!(pw.push('🦀'));
    assert!(pw.push('x'));
    assert_eq!(pw.len(), 5);
    assert_eq!(pw.char_count(), 2);
    assert!(pw.pop());
    assert_eq!(pw.as_str(), "🦀");
    assert!(pw.pop());
    assert_eq!(pw.as_str(), "");
}

#[test]
fn pop_on_empty_reports_nothing_removed() {
    let mut pw = Password::default();
    assert!(!pw.pop());
    assert!(pw.is_empty());
    assert_eq!(pw.len(), 0);
}

#[test]
fn push_then_pop_restores_password() {
    let mut pw = Password::new();
    pw.push('p');
    pw.push('w');
    let before = pw.as_str().to_string();
    pw.push('ß');
    pw.pop();
    assert_eq!(pw.as_str(), before);
}

#[test]
fn zero_capacity_buffer_accepts_nothing() {
    let mut pw = Password::with_capacity(0);
    assert!(!pw.push('a'));
    assert!(pw.is_empty());
}

#[test]
fn zeroize_empties_and_releases_storage() {
    let mut pw = Password::new();
    pw.push('s');
    pw.push('e');
    pw.zeroize();
    assert!(pw.is_empty());
    assert_eq!(pw.as_str(), "");
    assert!(!pw.push('x'));
}

#[test]
fn clear_then_reuse() {
    let mut pw = Password::new();
    pw.push('a');
    pw.push('b');
    pw.clear();
    assert_eq!(pw.char_count(), 0);
    pw.push('c');
    assert_eq!(pw.as_str(), "c");
}
