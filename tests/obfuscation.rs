use crowdlog::obfuscation::{decrypt, encrypt};
use crowdlog::settings::Credentials;

fn test_str(text: &str) {
    let encoded = encrypt(text);
    let decoded = decrypt(encoded.as_str()).expect("an obfuscated text reveals");
    assert_eq!(text, decoded);
}

#[test]
fn encode_decode_utf8() {
    test_str("password");
    test_str("Hy3u45!ZRdLz*Kp#2B^DyRMs$irXCZtD");
    test_str("🎉emoji_is_not_supported!!");
}

#[test]
fn encrypt_shifts_each_byte_up() {
    assert_eq!(encrypt("abc"), "bcd");
    assert_eq!(encrypt(""), "");
    assert_eq!(encrypt("z!"), "{\"");
    assert_ne!(encrypt("password"), "password");
}

#[test]
fn decrypt_shifts_each_byte_down() {
    assert_eq!(decrypt("bcd").unwrap(), "abc");
    assert_eq!(decrypt("{\"").unwrap(), "z!");
}

#[test]
fn shifted_bytes_that_are_not_utf8_become_byte_characters() {
    // 0x7F shifts to 0x80, and "¿" (C2 BF) to C3 C0: neither is UTF-8.
    assert_eq!(encrypt("a\u{7f}b"), "b\u{80}c");
    assert_eq!(encrypt("¿"), "\u{c3}\u{c0}");
    test_str("a\u{7f}b");
    test_str("¿");
    test_str("\u{0}\u{7f}ÿ\u{10ffff}");
}

#[test]
fn decrypt_refuses_text_that_no_obfuscation_gives() {
    // A character above U+00FF is no byte.
    assert_eq!(decrypt("あ"), None);
    // 0x00 down is 0xFF, which is never UTF-8.
    assert_eq!(decrypt("\u{0}"), None);
}

#[test]
fn round_trip_on_multibyte_text() {
    test_str("パスワード");
    test_str("ñandú");
    test_str("");
}

#[test]
fn credentials_start_empty_and_invalid() {
    let c = Credentials::new();
    assert_eq!(c.email, "");
    assert_eq!(c.passwd, "");
    assert!(!c.is_valid());
}

#[test]
fn credentials_need_both_fields() {
    let only_email = Credentials { email: "a@b.jp".to_string(), passwd: String::new() };
    let only_passwd = Credentials { email: String::new(), passwd: "pw".to_string() };
    let both = Credentials { email: "a@b.jp".to_string(), passwd: "pw".to_string() };
    assert!(!only_email.is_valid());
    assert!(!only_passwd.is_valid());
    assert!(both.is_valid());
}

#[test]
fn credentials_replace_takes_both_fields() {
    let mut c = Credentials::new();
    let n = Credentials { email: "me@example.com".to_string(), passwd: "secret".to_string() };
    c.replace(&n);
    assert_eq!(c, n);
}

#[test]
fn stored_credentials_keep_email_and_shift_password() {
    let c = Credentials { email: "me@example.com".to_string(), passwd: "abc".to_string() };
    let stored = c.encrypted();
    assert_eq!(stored.email, "me@example.com");
    assert_eq!(stored.passwd, "bcd");
    assert_eq!(stored.decrypted().unwrap(), c);
}

#[test]
fn restore_reveals_stored_credentials() {
    let stored = Credentials { email: "me@example.com".to_string(), passwd: "bcd".to_string() };
    let c = Credentials::restore(Some(stored));
    assert_eq!(c.email, "me@example.com");
    assert_eq!(c.passwd, "abc");
}

#[test]
fn restore_without_stored_credentials_is_empty() {
    let c = Credentials::restore(None);
    assert_eq!(c, Credentials::new());
    let unreadable = Credentials { email: "me@example.com".to_string(), passwd: "あ".to_string() };
    assert_eq!(Credentials::restore(Some(unreadable)), Credentials::new());
}

#[test]
fn any_password_survives_storage() {
    for passwd in ["¿qué?", "\u{7f}", "pass word", "🎉"] {
        let c = Credentials { email: "me@example.com".to_string(), passwd: passwd.to_string() };
        assert_eq!(Credentials::restore(Some(c.encrypted())), c);
    }
}
