use saferoute::vault::crypto::{open_with_nonce, seal_with_nonce};
use saferoute::vault::error::VaultError;
use saferoute::vault::service::VaultState;

#[test]
fn round_trip_of_several_payloads() {
    let state = VaultState::new(vec![42u8; 32], 60);
    let payloads: Vec<Vec<u8>> = vec![
        vec![],
        vec![0],
        b"sensitive data".to_vec(),
        (0..=255u8).collect(),
        vec![0xab; 4099],
    ];
    for payload in payloads {
        let (ciphertext, nonce) = state.encrypt(&payload).unwrap();
        assert_eq!(nonce.len(), 12);
        assert_eq!(ciphertext.len(), payload.len() + 16);
        assert_eq!(state.decrypt(&ciphertext, &nonce).unwrap(), payload);
    }
}

#[test]
fn sealing_changes_the_bytes() {
    let state = VaultState::new(vec![42u8; 32], 60);
    let payload = b"sensitive data with some length".to_vec();
    let (ciphertext, _) = state.encrypt(&payload).unwrap();
    assert_ne!(&ciphertext[..payload.len()], &payload[..]);
}

#[test]
fn two_encryptions_differ() {
    let state = VaultState::new(vec![42u8; 32], 60);
    let (first_ct, first_nonce) = state.encrypt(b"same plaintext").unwrap();
    let (second_ct, second_nonce) = state.encrypt(b"same plaintext").unwrap();
    assert_ne!(first_nonce, second_nonce);
    assert_ne!(first_ct, second_ct);
    assert_ne!(first_nonce, vec![0u8; 12]);
}

#[test]
fn sealing_with_a_given_nonce_is_the_known_cipher() {
    // AES-256-GCM, zero key, zero nonce, empty plaintext: the tag alone.
    let sealed = seal_with_nonce(&[0u8; 32], &[0u8; 12], &[]).unwrap();
    assert_eq!(
        sealed,
        vec![
            0x53, 0x0f, 0x8a, 0xfb, 0xc7, 0x45, 0x36, 0xb9, 0xa9, 0x63, 0xb4, 0xf1, 0xc4, 0xcb,
            0x73, 0x8b
        ]
    );
    // Zero key, zero nonce, sixteen zero bytes.
    let sealed = seal_with_nonce(&[0u8; 32], &[0u8; 12], &[0u8; 16]).unwrap();
    assert_eq!(
        sealed,
        vec![
            0xce, 0xa7, 0x40, 0x3d, 0x4d, 0x60, 0x6b, 0x6e, 0x07, 0x4e, 0xc5, 0xd3, 0xba, 0xf3,
            0x9d, 0x18, 0xd0, 0xd1, 0xc8, 0xa7, 0x99, 0x99, 0x6b, 0xf0, 0x26, 0x5b, 0x98, 0xb5,
            0xd4, 0x8a, 0xb9, 0x19
        ]
    );
    assert_eq!(open_with_nonce(&[0u8; 32], &sealed, &[0u8; 12]).unwrap(), vec![0u8; 16]);
}

#[test]
fn sealing_is_determined_by_key_nonce_and_plaintext() {
    let a = seal_with_nonce(&[5u8; 32], &[6u8; 12], b"payload").unwrap();
    let b = seal_with_nonce(&[5u8; 32], &[6u8; 12], b"payload").unwrap();
    assert_eq!(a, b);
    let c = seal_with_nonce(&[5u8; 32], &[7u8; 12], b"payload").unwrap();
    assert_ne!(a, c);
}

#[test]
fn key_of_the_wrong_length_is_a_key_error() {
    for len in [0usize, 16, 31, 33] {
        let state = VaultState::new(vec![1u8; len], 60);
        assert_eq!(state.encrypt(b"data").unwrap_err(), VaultError::Key);
        assert_eq!(seal_with_nonce(&vec![1u8; len], &[0u8; 12], b"data").unwrap_err(), VaultError::Key);
    }
}

#[test]
fn nonce_of_the_wrong_length_is_refused() {
    let state = VaultState::new(vec![1u8; 32], 60);
    let (ciphertext, nonce) = state.encrypt(b"data").unwrap();
    assert_eq!(state.decrypt(&ciphertext, &nonce[..11]).unwrap_err(), VaultError::Decryption);
    assert_eq!(state.decrypt(&ciphertext, &[]).unwrap_err(), VaultError::Decryption);
    let mut long = nonce.clone();
    long.push(0);
    assert_eq!(state.decrypt(&ciphertext, &long).unwrap_err(), VaultError::Decryption);
    assert_eq!(
        seal_with_nonce(&[1u8; 32], &[0u8; 11], b"data").unwrap_err(),
        VaultError::Encryption
    );
}

#[test]
fn decrypting_with_another_key_fails() {
    let state = VaultState::new(vec![1u8; 32], 60);
    let other = VaultState::new(vec![2u8; 32], 60);
    let short = VaultState::new(vec![1u8; 16], 60);
    let (ciphertext, nonce) = state.encrypt(b"sensitive data").unwrap();
    assert_eq!(other.decrypt(&ciphertext, &nonce).unwrap_err(), VaultError::Decryption);
    assert_eq!(short.decrypt(&ciphertext, &nonce).unwrap_err(), VaultError::Decryption);
}

#[test]
fn tampered_or_truncated_ciphertext_fails() {
    let state = VaultState::new(vec![1u8; 32], 60);
    let (ciphertext, nonce) = state.encrypt(b"sensitive data").unwrap();
    for i in 0..ciphertext.len() {
        let mut bad = ciphertext.clone();
        bad[i] ^= 0x01;
        assert_eq!(state.decrypt(&bad, &nonce).unwrap_err(), VaultError::Decryption);
    }
    assert_eq!(
        state.decrypt(&ciphertext[..ciphertext.len() - 1], &nonce).unwrap_err(),
        VaultError::Decryption
    );
    assert_eq!(state.decrypt(&ciphertext[..15], &nonce).unwrap_err(), VaultError::Decryption);
    assert_eq!(state.decrypt(&[], &nonce).unwrap_err(), VaultError::Decryption);
}
