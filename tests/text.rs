use intj::keys::SIGNATURE_LEN;
use intj::{
    parse_format, process_generate, process_sign, process_verify, Blake3, Ed25519Signer,
    Ed25519Verifier, TextError, TextSignFormat,
};

const KEY: &[u8] = b"kN7#xQ2@bV9!mR4*tY6_wE3&pZ8^sH5%";

fn hex(s: &str) -> Vec<u8> {
    (0..s.len())
        .step_by(2)
        .map(|i| u8::from_str_radix(&s[i..i + 2], 16).unwrap())
        .collect()
}

#[test]
fn test_blake3_sign() {
    let reader = "hello".as_bytes();
    let reader1 = "hello".as_bytes();
    let format = TextSignFormat::Blake3;
    let sig = process_sign(reader, KEY, format).unwrap();
    let ret = process_verify(reader1, KEY, &sig, format).unwrap();
    assert!(ret);
}

#[test]
fn test_blake3_verify() {
    let reader_for_sign = "hello".as_bytes();
    let reader_for_verify = "hello".as_bytes();
    let format = TextSignFormat::Blake3;
    let sig = process_sign(reader_for_sign, KEY, format).unwrap();
    let ret = process_verify(reader_for_verify, KEY, &sig, format).unwrap();
    assert!(ret);
}

#[test]
fn blake3_signature_with_last_byte_flipped_is_rejected() {
    let sig = process_sign(b"hello", KEY, TextSignFormat::Blake3).unwrap();
    let mut tampered = sig.clone();
    let last = tampered.len() - 1;
    tampered[last] ^= 1;
    assert_eq!(process_verify(b"hello", KEY, &sig, TextSignFormat::Blake3), Ok(true));
    assert_eq!(process_verify(b"hello", KEY, &tampered, TextSignFormat::Blake3), Ok(false));
}

#[test]
fn blake3_every_single_byte_change_is_rejected() {
    let sig = process_sign(b"some data", KEY, TextSignFormat::Blake3).unwrap();
    for i in 0..sig.len() {
        let mut tampered = sig.clone();
        tampered[i] = tampered[i].wrapping_add(1);
        assert_eq!(
            process_verify(b"some data", KEY, &tampered, TextSignFormat::Blake3),
            Ok(false)
        );
    }
}

#[test]
fn blake3_signature_is_a_deterministic_32_byte_mac() {
    let a = process_sign(b"hello", KEY, TextSignFormat::Blake3).unwrap();
    let b = process_sign(b"hello", KEY, TextSignFormat::Blake3).unwrap();
    assert_eq!(a.len(), 32);
    assert_eq!(a, b);
    assert_ne!(a.as_slice(), KEY);
    let other_key = [7u8; 32];
    let c = process_sign(b"hello", &other_key, TextSignFormat::Blake3).unwrap();
    assert_ne!(a, c);
    let d = process_sign(b"hellp", KEY, TextSignFormat::Blake3).unwrap();
    assert_ne!(a, d);
}

#[test]
fn blake3_signature_of_other_data_is_rejected() {
    let sig = process_sign(b"hello", KEY, TextSignFormat::Blake3).unwrap();
    assert_eq!(process_verify(b"world", KEY, &sig, TextSignFormat::Blake3), Ok(false));
    assert_eq!(process_verify(b"hello", KEY, &sig[..31], TextSignFormat::Blake3), Ok(false));
}

#[test]
fn key_of_31_bytes_is_refused() {
    assert!(matches!(Blake3::try_new(&KEY[..31]), Err(TextError::KeyLength)));
    assert!(matches!(Ed25519Signer::try_new(&[1u8; 31]), Err(TextError::KeyLength)));
    assert!(matches!(Ed25519Verifier::try_new(&[1u8; 31]), Err(TextError::KeyLength)));
    assert_eq!(process_sign(b"x", &KEY[..31], TextSignFormat::Blake3), Err(TextError::KeyLength));
    assert_eq!(
        process_verify(b"x", &KEY[..31], &[0u8; 32], TextSignFormat::Blake3),
        Err(TextError::KeyLength)
    );
}

#[test]
fn key_of_32_bytes_is_accepted() {
    assert!(Blake3::try_new(KEY).is_ok());
    assert!(Ed25519Signer::try_new(&[1u8; 32]).is_ok());
}

#[test]
fn key_of_40_bytes_uses_its_first_32() {
    let mut long_key = KEY.to_vec();
    long_key.extend_from_slice(b"\n-extra-");
    assert_eq!(long_key.len(), 40);
    let short = process_sign(b"hello", KEY, TextSignFormat::Blake3).unwrap();
    let long = process_sign(b"hello", &long_key, TextSignFormat::Blake3).unwrap();
    assert_eq!(short, long);
    let seed = [9u8; 40];
    let a = process_sign(b"hello", &seed, TextSignFormat::Ed25519).unwrap();
    let b = process_sign(b"hello", &seed[..32], TextSignFormat::Ed25519).unwrap();
    assert_eq!(a, b);
}

#[test]
fn ed25519_rfc8032_first_vector() {
    let seed = hex("9d61b19deffd5a60ba844af492ec2cc44449c5697b326919703bac031cae7f60");
    let public = hex("d75a980182b10ab7d54bfed3c964073a0ee172f3daa62325af021a68f707511a");
    let expected = hex(
        "e5564300c360ac729086e2cc806e828a84877f1eb8e5d974d873e065224901555fb8821590a33bacc61e39701cf9b46bd25bf5f0595bbe24655141438e7a100b",
    );
    let signer = Ed25519Signer::try_new(&seed).unwrap();
    assert_eq!(signer.public_key().to_vec(), public);
    let sig = process_sign(b"", &seed, TextSignFormat::Ed25519).unwrap();
    assert_eq!(sig, expected);
    assert_eq!(process_verify(b"", &public, &sig, TextSignFormat::Ed25519), Ok(true));
    assert_eq!(process_verify(b"x", &public, &sig, TextSignFormat::Ed25519), Ok(false));
}

#[test]
fn ed25519_generated_pair_signs_and_verifies() {
    let files = process_generate(TextSignFormat::Ed25519).unwrap();
    assert_eq!(files.len(), 2);
    assert_eq!(files[0].name, "ed25519.sk");
    assert_eq!(files[1].name, "ed25519.pk");
    let sk = &files[0].bytes;
    let pk = &files[1].bytes;
    let sig = process_sign(b"hello world", sk, TextSignFormat::Ed25519).unwrap();
    assert_eq!(sig.len(), SIGNATURE_LEN);
    assert_eq!(process_verify(b"hello world", pk, &sig, TextSignFormat::Ed25519), Ok(true));
    let other = process_generate(TextSignFormat::Ed25519).unwrap();
    let other_pk = &other[1].bytes;
    assert_eq!(pk.len(), 32);
    assert!(Ed25519Verifier::try_new(pk).is_ok());
    assert_eq!(
        process_verify(b"hello world", other_pk, &sig, TextSignFormat::Ed25519),
        Ok(false)
    );
}

#[test]
fn ed25519_signature_of_wrong_length_is_malformed() {
    let files = process_generate(TextSignFormat::Ed25519).unwrap();
    let sig = process_sign(b"msg", &files[0].bytes, TextSignFormat::Ed25519).unwrap();
    assert_eq!(
        process_verify(b"msg", &files[1].bytes, &sig[..63], TextSignFormat::Ed25519),
        Err(TextError::MalformedSignature)
    );
    let mut longer = sig.clone();
    longer.push(0);
    assert_eq!(
        process_verify(b"msg", &files[1].bytes, &longer, TextSignFormat::Ed25519),
        Err(TextError::MalformedSignature)
    );
}

#[test]
fn ed25519_public_key_off_the_curve_is_refused() {
    let mut bytes = [0u8; 32];
    bytes[0] = 2;
    assert!(matches!(Ed25519Verifier::try_new(&bytes), Err(TextError::InvalidPoint)));
    assert_eq!(
        process_verify(b"msg", &bytes, &[0u8; 64], TextSignFormat::Ed25519),
        Err(TextError::InvalidPoint)
    );
}

#[test]
fn blake3_generated_key_is_a_32_character_password() {
    let files = process_generate(TextSignFormat::Blake3).unwrap();
    assert_eq!(files.len(), 1);
    assert_eq!(files[0].name, "blake3.txt");
    let key = &files[0].bytes;
    assert_eq!(key.len(), 32);
    assert!(key.iter().all(|b| b.is_ascii_graphic()));
    let sig = process_sign(b"data", key, TextSignFormat::Blake3).unwrap();
    assert_eq!(process_verify(b"data", key, &sig, TextSignFormat::Blake3), Ok(true));
}

#[test]
fn blake3_key_struct_signs_like_process_sign() {
    let mut key = [0u8; 32];
    key.copy_from_slice(KEY);
    let mac = Blake3::new(key);
    let sig = mac.sign(b"hello");
    assert_eq!(sig, process_sign(b"hello", KEY, TextSignFormat::Blake3).unwrap());
    assert!(mac.verify(b"hello", &sig));
    assert!(!mac.verify(b"hello!", &sig));
}

#[test]
fn format_tags_parse_exactly() {
    assert_eq!(parse_format("blake3"), Ok(TextSignFormat::Blake3));
    assert_eq!(parse_format("ed25519"), Ok(TextSignFormat::Ed25519));
    assert!(parse_format("Blake3").is_err());
    assert!(parse_format("rsa").is_err());
    assert_eq!(TextSignFormat::Blake3.as_str(), "blake3");
    assert_eq!(TextSignFormat::Ed25519.as_str(), "ed25519");
}
