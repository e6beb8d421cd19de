use base64::Engine;
use magic_crypt::MagicCryptTrait;
use sms_bridge::codec::{decrypt_url, encrypt_url, DecodeError};

#[test]
fn round_trip_basic() {
    let secret = "magickey";
    let dest = "https://hooks.example/abc";
    let token = encrypt_url(secret, dest);
    assert_eq!(decrypt_url(secret, token), Ok(dest.to_string()));
}

#[test]
fn round_trip_various_destinations() {
    let secret = "s3cr3t";
    let destinations = vec![
        "a".to_string(),
        "https://hooks.slack.com/services/T000/B000/XXXX".to_string(),
        "endpoint with spaces and unicode \u{00e9}\u{6f22}".to_string(),
        "x".repeat(300),
    ];
    for dest in destinations.iter() {
        let token = encrypt_url(secret, dest);
        assert_eq!(decrypt_url(secret, token), Ok(dest.clone()));
    }
}

#[test]
fn token_is_not_the_plaintext() {
    let secret = "magickey";
    let dest = "https://hooks.example/abc";
    let token = encrypt_url(secret, dest);
    assert_ne!(token, dest);
}

#[test]
fn encoding_is_deterministic() {
    let secret = "magickey";
    let dest = "https://hooks.example/abc";
    assert_eq!(encrypt_url(secret, dest), encrypt_url(secret, dest));
}

#[test]
fn tampered_token_fails_to_decode() {
    let secret = "magickey";
    let dest = "https://hooks.example/abc";
    let token = encrypt_url(secret, dest);
    let bytes = token.as_bytes();
    for i in 0..bytes.len() {
        let mut tampered = bytes.to_vec();
        // Substitute a different character from the same encoding alphabet,
        // so the damage is to the ciphertext, not merely to the text form.
        tampered[i] = if bytes[i] == b'A' { b'B' } else { b'A' };
        let tampered = String::from_utf8(tampered).unwrap();
        let r = decrypt_url(secret, tampered);
        assert!(
            r.is_err(),
            "flipping byte {} produced {:?} instead of an error",
            i,
            r
        );
    }
}

#[test]
fn cross_key_decoding_fails() {
    let token = encrypt_url("K1", "https://hooks.example/abc");
    let r = decrypt_url("K2", token);
    assert!(r.is_err(), "decoding under the wrong key produced {:?}", r);
}

#[test]
fn non_base64_input_is_malformed() {
    let r = decrypt_url("magickey", "not a token!!!".to_string());
    assert_eq!(r, Err(DecodeError::Malformed));
}

#[test]
fn truncated_ciphertext_fails_decryption() {
    // "AA==" is valid base64 for a single byte, which is no whole cipher
    // block, so decryption itself must fail.
    let r = decrypt_url("magickey", "AA==".to_string());
    assert_eq!(r, Err(DecodeError::DecryptionFailed));
}

#[test]
fn non_utf8_plaintext_is_rejected() {
    // A token whose ciphertext decrypts correctly but to bytes that are not
    // valid text, built with the same cipher and encoding the codec relies
    // on.
    let mc = magic_crypt::MagicCrypt256::new("magickey", None::<&[u8]>);
    let cipher = mc.encrypt_bytes_to_bytes(&[0xc3u8, 0x28, 0xff, 0xfe]);
    let token = base64::engine::general_purpose::URL_SAFE.encode(cipher);
    let r = decrypt_url("magickey", token);
    assert_eq!(r, Err(DecodeError::NotUtf8));
}

#[test]
fn tokens_hold_only_path_safe_characters() {
    let secret = "magickey";
    let destinations = [
        "https://hooks.example/abc",
        "a",
        "some destination with spaces and unicode \u{6f22}",
    ];
    for dest in destinations {
        let token = encrypt_url(secret, dest);
        assert!(!token.is_empty());
        assert!(token.len() >= 24);
        assert_eq!(token.len() % 4, 0);
        for c in token.chars() {
            assert!(
                c.is_ascii_alphanumeric() || c == '-' || c == '_' || c == '=',
                "token holds a character unsafe in a path segment: {:?}",
                c
            );
        }
    }
}
