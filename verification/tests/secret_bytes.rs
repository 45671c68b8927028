use hosanna_rs_secret::{constant_time_eq, ExposeSecret, SecretBytes, SecretError};

#[test]
fn secret_bytes_display_is_masked() {
    let secret = SecretBytes::new(vec![1, 2, 3]);
    assert_eq!(secret.to_display_string(), "**********");
}

#[test]
fn secret_bytes_debug_shows_length_only() {
    let secret = SecretBytes::new(vec![1, 2, 3]);
    assert_eq!(secret.to_debug_string(), "SecretBytes([REDACTED], len=3)");
}

#[test]
fn secret_bytes_expose_returns_slice() {
    let secret = SecretBytes::new(vec![0xDE, 0xAD, 0xBE, 0xEF]);
    assert_eq!(secret.expose_secret(), &[0xDE, 0xAD, 0xBE, 0xEF]);
}

#[test]
fn secret_bytes_from_vec() {
    let secret = SecretBytes::from(vec![1, 2, 3]);
    assert_eq!(secret.expose_secret(), &[1, 2, 3]);
}

#[test]
fn secret_bytes_from_slice() {
    let secret = SecretBytes::from([1u8, 2, 3].as_slice());
    assert_eq!(secret.expose_secret(), &[1, 2, 3]);
}

#[test]
fn secret_bytes_len_does_not_expose() {
    let secret = SecretBytes::new(vec![1, 2, 3, 4]);
    assert_eq!(secret.len(), 4);
    assert!(!secret.is_empty());
}

#[test]
fn secret_bytes_empty_is_detected() {
    let secret = SecretBytes::new(vec![]);
    assert!(secret.is_empty());
    assert_eq!(secret.len(), 0);
}

#[test]
fn secret_bytes_equality_same_value() {
    let a = SecretBytes::new(vec![1, 2, 3]);
    let b = SecretBytes::new(vec![1, 2, 3]);
    assert!(a == b);
}

#[test]
fn secret_bytes_inequality_different_value() {
    let a = SecretBytes::new(vec![1, 2, 3]);
    let b = SecretBytes::new(vec![1, 2, 4]);
    assert!(a != b);
}

#[test]
fn secret_bytes_inequality_different_length() {
    let a = SecretBytes::new(vec![1, 2, 3]);
    let b = SecretBytes::new(vec![1, 2, 3, 4]);
    assert!(a != b);
}

#[test]
fn secret_bytes_deserializes_from_json_array() {
    let json = r#"[1, 2, 3, 4]"#;
    let raw: Vec<u8> = serde_json::from_str(json).expect("should deserialize from JSON array");
    let secret = SecretBytes::new(raw);
    assert_eq!(secret.expose_secret(), &[1u8, 2, 3, 4]);
}

// ── Further cases ───────────────────────────────────────────────────────

#[test]
fn secret_bytes_debug_length_in_decimal() {
    assert_eq!(SecretBytes::new(vec![]).to_debug_string(), "SecretBytes([REDACTED], len=0)");
    assert_eq!(SecretBytes::new(vec![7; 10]).to_debug_string(), "SecretBytes([REDACTED], len=10)");
    assert_eq!(SecretBytes::new(vec![0; 32]).to_debug_string(), "SecretBytes([REDACTED], len=32)");
    assert_eq!(SecretBytes::new(vec![9; 1205]).to_debug_string(), "SecretBytes([REDACTED], len=1205)");
}

#[test]
fn secret_bytes_debug_same_for_same_length() {
    let a = SecretBytes::new(vec![0xDE, 0xAD]);
    let b = SecretBytes::new(vec![0x00, 0x01]);
    assert_eq!(a.to_debug_string(), b.to_debug_string());
}

#[test]
fn secret_bytes_zeroize_empties() {
    let mut secret = SecretBytes::new(vec![0xDE, 0xAD, 0xBE, 0xEF]);
    secret.zeroize();
    assert!(secret.is_empty());
    assert_eq!(secret.len(), 0);
    assert_eq!(secret.expose_secret(), &[] as &[u8]);
}

#[test]
fn secret_bytes_empty_equals_empty() {
    let a = SecretBytes::new(vec![]);
    let b = SecretBytes::from(&[][..]);
    assert!(a == b);
}

#[test]
fn constant_time_eq_cases() {
    assert!(constant_time_eq(&[], &[]));
    assert!(constant_time_eq(&[1, 2, 3], &[1, 2, 3]));
    assert!(!constant_time_eq(&[1, 2, 3], &[1, 2, 4]));
    assert!(!constant_time_eq(&[0, 2, 3], &[1, 2, 3]));
    assert!(!constant_time_eq(&[1, 2, 3], &[1, 2]));
    assert!(!constant_time_eq(&[0xFF], &[0x00]));
}

#[test]
fn secret_error_variants() {
    let denied = SecretError::ExposureDenied;
    let parse = SecretError::ParseError { reason: "bad input".to_string() };
    assert!(matches!(denied, SecretError::ExposureDenied));
    match parse {
        SecretError::ParseError { reason } => assert_eq!(reason, "bad input"),
        SecretError::ExposureDenied => panic!("wrong variant"),
    }
}
