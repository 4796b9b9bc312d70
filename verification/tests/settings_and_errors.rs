use saferoute::vault::error::{VaultError, STATUS_OK};
use saferoute::vault::settings::{
    load_settings, parse_seconds, ConfigError, DEFAULT_MASTER_KEY, DEFAULT_TTL_SECONDS,
    REAPER_INTERVAL_SECONDS,
};

#[test]
fn defaults_are_accepted() {
    let settings = load_settings(None, None).unwrap();
    assert_eq!(settings.master_key, b"default-32-byte-key-change-me!!!".to_vec());
    assert_eq!(settings.master_key.len(), 32);
    assert_eq!(settings.ttl_seconds, 60);
    assert_eq!(DEFAULT_MASTER_KEY.len(), 32);
    assert_eq!(DEFAULT_TTL_SECONDS, 60);
    assert_eq!(REAPER_INTERVAL_SECONDS, 10);
}

#[test]
fn values_of_the_environment_are_used() {
    let settings = load_settings(Some("0123456789abcdef0123456789abcdef"), Some("3600")).unwrap();
    assert_eq!(settings.master_key, b"0123456789abcdef0123456789abcdef".to_vec());
    assert_eq!(settings.ttl_seconds, 3600);
}

#[test]
fn key_must_be_32_bytes() {
    assert_eq!(load_settings(Some("short"), Some("60")).unwrap_err(), ConfigError::KeyLength);
    assert_eq!(load_settings(Some(""), None).unwrap_err(), ConfigError::KeyLength);
    // 32 characters, 33 bytes.
    assert_eq!(
        load_settings(Some("0123456789abcdef0123456789abcdeé"), None).unwrap_err(),
        ConfigError::KeyLength
    );
    // The key is looked at first.
    assert_eq!(load_settings(Some("short"), Some("x")).unwrap_err(), ConfigError::KeyLength);
}

#[test]
fn time_to_live_must_be_a_number() {
    for text in ["", "abc", "-1", "6 0", " 60", "60 ", "1.5", "+", "+-1", "++1", "0x10", "٣"] {
        assert_eq!(load_settings(None, Some(text)).unwrap_err(), ConfigError::InvalidTtl);
        assert_eq!(parse_seconds(text), None);
    }
}

#[test]
fn numbers_are_read_as_decimal() {
    assert_eq!(parse_seconds("0"), Some(0));
    assert_eq!(parse_seconds("60"), Some(60));
    assert_eq!(parse_seconds("+60"), Some(60));
    assert_eq!(parse_seconds("007"), Some(7));
    assert_eq!(parse_seconds("18446744073709551615"), Some(u64::MAX));
    assert_eq!(parse_seconds("18446744073709551616"), None);
    assert_eq!(parse_seconds("99999999999999999999999"), None);
    assert_eq!(parse_seconds("000000000000000000000000001"), Some(1));
}

#[test]
fn numbers_are_read_as_the_standard_library_reads_them() {
    for text in ["", "+", "-", "+0", "-0", "12", "+12", "0012", "1_000", "18446744073709551615",
        "18446744073709551616", "1e3", "١٢", "12a", "a12", " 12"]
    {
        assert_eq!(parse_seconds(text), text.parse::<u64>().ok());
    }
}

#[test]
fn status_of_each_failure() {
    assert_eq!(STATUS_OK, 200);
    assert_eq!(VaultError::NotFound.status_code(), 404);
    assert_eq!(VaultError::Serialization.status_code(), 400);
    assert_eq!(VaultError::Key.status_code(), 500);
    assert_eq!(VaultError::Encryption.status_code(), 500);
    assert_eq!(VaultError::Decryption.status_code(), 500);
    assert_eq!(VaultError::Deserialization.status_code(), 500);
}

#[test]
fn only_not_found_is_routine() {
    assert!(VaultError::NotFound.is_routine());
    assert!(!VaultError::Decryption.is_routine());
    assert!(!VaultError::Encryption.is_routine());
    assert!(!VaultError::Key.is_routine());
    assert!(!VaultError::Serialization.is_routine());
    assert!(!VaultError::Deserialization.is_routine());
}

#[test]
fn text_of_each_failure() {
    assert_eq!(VaultError::NotFound.message(), "Request ID not found");
    assert_eq!(VaultError::Serialization.message(), "Serialization failed");
    assert_eq!(VaultError::Encryption.message(), "Encryption failed");
    assert_eq!(VaultError::Decryption.message(), "Decryption failed");
    assert_eq!(VaultError::Deserialization.message(), "Deserialization failed");
    assert_eq!(VaultError::Key.message(), "Key creation failed");
}
