use base64::engine::general_purpose::STANDARD;
use base64::Engine;
use chacha20poly1305::aead::{Aead, KeyInit};
use chacha20poly1305::{ChaCha20Poly1305, Key, Nonce};
use intj::aead::{seal_with_nonce, NONCE_LEN, TAG_LEN};
use intj::commands::{decrypt_command, encrypt_command};
use intj::{decrypt, decrypt_text, encrypt, encrypt_text, TextError};

const KEY: [u8; 32] = [
    1, 2, 3, 4, 5, 6, 7, 8, 9, 10, 11, 12, 13, 14, 15, 16, 17, 18, 19, 20, 21, 22, 23, 24, 25, 26,
    27, 28, 29, 30, 31, 32,
];

#[test]
fn encrypt_then_decrypt_gives_the_message() {
    let out = encrypt("secret message", &KEY).unwrap();
    assert_eq!(out.len(), NONCE_LEN + "secret message".len() + TAG_LEN);
    assert_eq!(decrypt(&out, &KEY), Ok("secret message".to_string()));
}

#[test]
fn truncated_ciphertext_is_malformed() {
    let out = encrypt("secret message", &KEY).unwrap();
    assert_eq!(decrypt(&out[..10], &KEY), Err(TextError::MalformedCiphertext));
    assert_eq!(decrypt(&[], &KEY), Err(TextError::MalformedCiphertext));
}

#[test]
fn input_without_room_for_nonce_and_tag_is_malformed() {
    let out = encrypt("secret message", &KEY).unwrap();
    assert_eq!(decrypt(&out[..12], &KEY), Err(TextError::MalformedCiphertext));
    assert_eq!(decrypt(&out[..27], &KEY), Err(TextError::MalformedCiphertext));
    assert_eq!(decrypt(&out[..28], &KEY), Err(TextError::AuthenticationFailed));
    let empty = encrypt("", &KEY).unwrap();
    assert_eq!(empty.len(), 28);
    assert_eq!(decrypt(&empty, &KEY), Ok(String::new()));
}

#[test]
fn round_trip_of_empty_and_unicode_text() {
    for text in ["", "a", "héllo wörld ✓", "line\nbreak"] {
        let out = encrypt(text, &KEY).unwrap();
        assert_eq!(decrypt(&out, &KEY), Ok(text.to_string()));
    }
}

#[test]
fn encrypting_twice_gives_different_outputs() {
    let a = encrypt("same text", &KEY).unwrap();
    let b = encrypt("same text", &KEY).unwrap();
    assert_ne!(a, b);
    assert_ne!(a[..NONCE_LEN], b[..NONCE_LEN]);
}

#[test]
fn any_flipped_bit_fails_authentication() {
    let out = encrypt("secret message", &KEY).unwrap();
    for i in 0..out.len() {
        for bit in [0u8, 3, 7] {
            let mut tampered = out.clone();
            tampered[i] ^= 1 << bit;
            assert_eq!(decrypt(&tampered, &KEY), Err(TextError::AuthenticationFailed));
        }
    }
}

#[test]
fn wrong_key_fails_authentication() {
    let out = encrypt("secret message", &KEY).unwrap();
    let mut other = KEY;
    other[0] ^= 0x80;
    assert_eq!(decrypt(&out, &other), Err(TextError::AuthenticationFailed));
    assert_eq!(decrypt(&out, &[0u8; 32]), Err(TextError::AuthenticationFailed));
}

#[test]
fn key_of_wrong_length_is_refused() {
    assert_eq!(encrypt("x", &KEY[..31]), Err(TextError::InvalidKeyLength));
    assert_eq!(encrypt("x", &[0u8; 33]), Err(TextError::InvalidKeyLength));
    assert_eq!(decrypt(&[0u8; 40], &KEY[..31]), Err(TextError::InvalidKeyLength));
}

#[test]
fn fixed_nonce_output_matches_the_cipher() {
    let nonce = [5u8; 12];
    let out = seal_with_nonce("secret message", &KEY, nonce).unwrap();
    let cipher = ChaCha20Poly1305::new(Key::from_slice(&KEY));
    let expected = cipher.encrypt(Nonce::from_slice(&nonce), b"secret message".as_ref()).unwrap();
    assert_eq!(&out[..12], &nonce);
    assert_eq!(&out[12..], expected.as_slice());
    assert_ne!(&out[12..12 + 14], b"secret message");
    assert_eq!(decrypt(&out, &KEY), Ok("secret message".to_string()));
}

#[test]
fn plaintext_that_is_not_utf8_is_refused() {
    let nonce = [9u8; 12];
    let cipher = ChaCha20Poly1305::new(Key::from_slice(&KEY));
    let sealed = cipher.encrypt(Nonce::from_slice(&nonce), [0xffu8, 0xfe, 0x00].as_ref()).unwrap();
    let mut data = nonce.to_vec();
    data.extend_from_slice(&sealed);
    assert_eq!(decrypt(&data, &KEY), Err(TextError::InvalidEncoding));
}

#[test]
fn base64_text_round_trip() {
    let key_base64 = "AQIDBAUGBwgJCgsMDQ4PEBESExQVFhcYGRobHB0eHyA=";
    let encrypted = encrypt_text("secret message", key_base64).unwrap();
    assert_eq!(decrypt_text(&encrypted, key_base64), Ok("secret message".to_string()));
    let raw = STANDARD.decode(&encrypted).unwrap();
    assert_eq!(raw.len(), 12 + 14 + 16);
    let truncated = STANDARD.encode(&raw[..10]);
    assert_eq!(decrypt_text(&truncated, key_base64), Err(TextError::MalformedCiphertext));
}

#[test]
fn base64_text_errors() {
    let key_base64 = "AQIDBAUGBwgJCgsMDQ4PEBESExQVFhcYGRobHB0eHyA=";
    assert_eq!(encrypt_text("x", "not base64!"), Err(TextError::InvalidBase64));
    assert_eq!(encrypt_text("x", "AQID"), Err(TextError::InvalidKeyLength));
    assert_eq!(decrypt_text("not base64!", key_base64), Err(TextError::InvalidBase64));
    assert_eq!(decrypt_text("AAAA", key_base64), Err(TextError::MalformedCiphertext));
    assert_eq!(decrypt_text("AAAA", "AQID"), Err(TextError::InvalidKeyLength));
}

#[test]
fn command_round_trip_with_a_typed_key() {
    let key = "0123456789abcdef0123456789abcdef";
    let encoded = encrypt_command(b"hello there", key).unwrap();
    assert!(!encoded.contains('='));
    let with_newline = format!("{}\n", encoded);
    assert_eq!(decrypt_command(with_newline.as_bytes(), key), Ok("hello there".to_string()));
    assert_eq!(encrypt_command(b"x", "short"), Err(TextError::InvalidKeyLength));
    assert_eq!(encrypt_command(&[0xff], key), Err(TextError::InvalidInput));
    assert_eq!(decrypt_command(b"***", key), Err(TextError::InvalidBase64));
}
