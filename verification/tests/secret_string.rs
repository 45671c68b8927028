use hosanna_rs_secret::{ExposeSecret, SecretString};

#[test]
fn secret_string_display_is_masked() {
    let secret = SecretString::new("my_password".to_string());
    assert_eq!(secret.to_display_string(), "**********");
}

#[test]
fn secret_string_debug_is_redacted() {
    let secret = SecretString::new("my_password".to_string());
    assert_eq!(secret.to_debug_string(), "SecretString([REDACTED])");
}

#[test]
fn secret_string_expose_returns_value() {
    let secret = SecretString::new("my_password".to_string());
    assert_eq!(secret.expose_secret(), "my_password");
}

#[test]
fn secret_string_from_string() {
    let secret = SecretString::from("value".to_string());
    assert_eq!(secret.expose_secret(), "value");
}

#[test]
fn secret_string_from_str_slice() {
    let secret = SecretString::from("value");
    assert_eq!(secret.expose_secret(), "value");
}

#[test]
fn secret_string_len_does_not_expose() {
    let secret = SecretString::new("hello".to_string());
    assert_eq!(secret.len(), 5);
    assert!(!secret.is_empty());
}

#[test]
fn secret_string_empty_is_detected() {
    let secret = SecretString::new(String::new());
    assert!(secret.is_empty());
    assert_eq!(secret.len(), 0);
}

#[test]
fn secret_string_equality_same_value() {
    let a = SecretString::new("password".to_string());
    let b = SecretString::new("password".to_string());
    assert!(a == b);
}

#[test]
fn secret_string_inequality_different_value() {
    let a = SecretString::new("password".to_string());
    let b = SecretString::new("other".to_string());
    assert!(a != b);
}

#[test]
fn secret_string_inequality_different_length() {
    let a = SecretString::new("abc".to_string());
    let b = SecretString::new("abcd".to_string());
    assert!(a != b);
}

#[test]
fn secret_string_deserializes_from_json_string() {
    let json = r#""my_secret_value""#;
    let raw: String = serde_json::from_str(json).expect("should deserialize from JSON string");
    let secret = SecretString::new(raw);
    assert_eq!(secret.expose_secret(), "my_secret_value");
}

#[test]
fn secret_string_in_struct_deserializes() {
    let json = r#"{"password": "hunter2", "api_key": "abc123"}"#;
    let mut config: std::collections::HashMap<String, String> =
        serde_json::from_str(json).expect("should deserialize config from JSON");
    let password = SecretString::new(config.remove("password").unwrap());
    let api_key = SecretString::new(config.remove("api_key").unwrap());

    assert_eq!(password.expose_secret(), "hunter2");
    assert_eq!(api_key.expose_secret(), "abc123");
}

#[test]
fn secret_string_display_unchanged_after_deserialization() {
    let json = r#""my_secret""#;
    let raw: String = serde_json::from_str(json).expect("should deserialize");
    let secret = SecretString::new(raw);
    assert_eq!(secret.to_display_string(), "**********");
}

// ── Further cases ───────────────────────────────────────────────────────

#[test]
fn secret_string_len_counts_utf8_bytes() {
    let secret = SecretString::from("héllo€");
    assert_eq!(secret.len(), 9);
    assert!(!secret.is_empty());
}

#[test]
fn secret_string_equality_multibyte() {
    let a = SecretString::from("naïve");
    let b = SecretString::from("naïve".to_string());
    let c = SecretString::from("naive");
    assert!(a == b);
    assert!(a != c);
}

#[test]
fn secret_string_debug_ignores_value_and_length() {
    let short = SecretString::from("x");
    let long = SecretString::from("a much longer secret value");
    assert_eq!(short.to_debug_string(), long.to_debug_string());
    assert_eq!(short.to_display_string(), long.to_display_string());
}

#[test]
fn secret_string_zeroize_empties() {
    let mut secret = SecretString::from("hunter2");
    secret.zeroize();
    assert!(secret.is_empty());
    assert_eq!(secret.len(), 0);
    assert_eq!(secret.expose_secret(), "");
}

#[test]
fn secret_string_empty_equals_empty() {
    let a = SecretString::from("");
    let b = SecretString::new(String::new());
    assert!(a == b);
}
