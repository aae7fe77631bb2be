//! Authenticated encryption of text with ChaCha20-Poly1305: a fresh random
//! 12-byte nonce per message, sent in front of the ciphertext and its tag.

use crate::encoding::{standard_decode, standard_decoded, standard_encode, standard_encoded};
use crate::error::TextError;
use crate::keys::{copy_prefix, KEY_LEN};
use chacha20poly1305::aead::{Aead, KeyInit};
use chacha20poly1305::{ChaCha20Poly1305, Key, Nonce};
use vstd::prelude::*;
use vstd::utf8::{decode_utf8, encode_utf8, valid_utf8};

verus! {

broadcast use {vstd::utf8::encode_utf8_valid_utf8, vstd::utf8::encode_utf8_decode_utf8};

/// Length in bytes of the nonce in front of every ciphertext.
pub const NONCE_LEN: usize = 12;

/// Length in bytes of the authentication tag after every ciphertext.
pub const TAG_LEN: usize = 16;

#[verifier::external_type_specification]
#[verifier::external_body]
pub struct ExAeadError(chacha20poly1305::Error);

#[verifier::external_type_specification]
#[verifier::external_body]
pub struct ExRandomError(getrandom::Error);

/// ChaCha20-Poly1305 encryption of `plaintext` under `key` and `nonce`, with
/// no associated data: the ciphertext followed by its tag.
pub uninterp spec fn sealed_of(key: Seq<u8>, nonce: Seq<u8>, plaintext: Seq<u8>) -> Seq<u8>;

/// ChaCha20-Poly1305 decryption: the plaintext if the tag verifies.
pub uninterp spec fn opened_of(key: Seq<u8>, nonce: Seq<u8>, sealed: Seq<u8>) -> Option<Seq<u8>>;

/// Whether the cipher can take `plaintext` under a single nonce: fewer than
/// 2^32 - 1 blocks of 64 bytes.
pub open spec fn within_block_limit(plaintext: Seq<u8>) -> bool {
    plaintext.len() / 64 < u32::MAX as int
}

/// Relies on `Aead::encrypt` of chacha20poly1305's `ChaCha20Poly1305`: the
/// ciphertext followed by the 16-byte tag, a function of key, nonce and
/// plaintext. It fails only past the cipher's block limit. The same key and
/// nonce open what it returns.
#[verifier::external_body]
fn chacha_seal(key: &[u8; 32], nonce: &[u8; 12], plaintext: &[u8]) -> (r: Result<
    Vec<u8>,
    chacha20poly1305::Error,
>)
    ensures
        r is Ok <==> within_block_limit(plaintext@),
        r is Ok ==> r->Ok_0@ == sealed_of(key@, nonce@, plaintext@),
        r is Ok ==> r->Ok_0@.len() == plaintext@.len() + TAG_LEN,
        r is Ok ==> opened_of(key@, nonce@, r->Ok_0@) == Some(plaintext@),
{
    ChaCha20Poly1305::new(Key::from_slice(key)).encrypt(Nonce::from_slice(nonce), plaintext)
}

/// Relies on `Aead::decrypt` of chacha20poly1305's `ChaCha20Poly1305`: the
/// plaintext when the tag verifies, an error otherwise; input shorter than a
/// tag is refused.
#[verifier::external_body]
fn chacha_open(key: &[u8; 32], nonce: &[u8; 12], sealed: &[u8]) -> (r: Result<
    Vec<u8>,
    chacha20poly1305::Error,
>)
    ensures
        match r {
            Ok(p) => opened_of(key@, nonce@, sealed@) == Some(p@),
            Err(_) => opened_of(key@, nonce@, sealed@) is None,
        },
        sealed@.len() < TAG_LEN ==> r is Err,
{
    ChaCha20Poly1305::new(Key::from_slice(key)).decrypt(Nonce::from_slice(nonce), sealed)
}

/// Relies on `getrandom::getrandom`: fills the buffer from the operating
/// system's random source, or fails; nothing is known of the bytes.
#[verifier::external_body]
pub(crate) fn fill_random<const N: usize>(buf: &mut [u8; N]) -> (r: Result<(), getrandom::Error>) {
    getrandom::getrandom(buf)
}

/// Relies on `String::from_utf8`: the text that the bytes encode, if they are
/// valid UTF-8.
#[verifier::external_body]
pub(crate) fn utf8_string(bytes: Vec<u8>) -> (r: Option<String>)
    ensures
        r is Some <==> valid_utf8(bytes@),
        r is Some ==> r->0@ == decode_utf8(bytes@),
{
    String::from_utf8(bytes).ok()
}

/// The characters of an `Ok`, or the error.
pub open spec fn text_result(r: Result<String, TextError>) -> Result<Seq<char>, TextError> {
    match r {
        Ok(s) => Ok(s@),
        Err(e) => Err(e),
    }
}

/// What decrypting `data` (nonce, then ciphertext and tag) under `key` gives.
/// Input too short to hold a nonce and a tag is malformed.
pub open spec fn decrypt_spec(data: Seq<u8>, key: Seq<u8>) -> Result<Seq<char>, TextError> {
    if key.len() != KEY_LEN {
        Err(TextError::InvalidKeyLength)
    } else if data.len() < NONCE_LEN + TAG_LEN {
        Err(TextError::MalformedCiphertext)
    } else {
        match opened_of(key, data.subrange(0, NONCE_LEN as int), data.subrange(NONCE_LEN as int, data.len() as int)) {
            None => Err(TextError::AuthenticationFailed),
            Some(p) => if valid_utf8(p) {
                Ok(decode_utf8(p))
            } else {
                Err(TextError::InvalidEncoding)
            },
        }
    }
}

/// Encrypts `plaintext` under `key` with the given nonce: the nonce, then the
/// ciphertext and its tag. The result decrypts to `plaintext`.
pub fn seal_with_nonce(plaintext: &str, key: &[u8], nonce: [u8; 12]) -> (r: Result<Vec<u8>, TextError>)
    ensures
        key@.len() != KEY_LEN ==> r == Err::<Vec<u8>, TextError>(TextError::InvalidKeyLength),
        key@.len() == KEY_LEN && !within_block_limit(encode_utf8(plaintext@)) ==> r == Err::<
            Vec<u8>,
            TextError,
        >(TextError::PlaintextTooLong),
        key@.len() == KEY_LEN && within_block_limit(encode_utf8(plaintext@)) ==> r is Ok,
        r is Ok ==> r->Ok_0@ == nonce@ + sealed_of(key@, nonce@, encode_utf8(plaintext@)),
        r is Ok ==> r->Ok_0@.len() == NONCE_LEN + encode_utf8(plaintext@).len() + TAG_LEN,
        r is Ok ==> decrypt_spec(r->Ok_0@, key@) == Ok::<Seq<char>, TextError>(plaintext@),
{
    if key.len() != KEY_LEN {
        return Err(TextError::InvalidKeyLength);
    }
    let key_bytes: [u8; 32] = copy_prefix(key);
    assert(key_bytes@ =~= key@);
    let sealed = match chacha_seal(&key_bytes, &nonce, plaintext.as_bytes()) {
        Ok(c) => c,
        Err(_) => return Err(TextError::PlaintextTooLong),
    };
    let mut sealed = sealed;
    let mut out = vstd::slice::slice_to_vec(nonce.as_slice());
    out.append(&mut sealed);
    proof {
        let s = sealed_of(key@, nonce@, encode_utf8(plaintext@));
        assert(out@.subrange(0, NONCE_LEN as int) =~= nonce@);
        assert(out@.subrange(NONCE_LEN as int, out@.len() as int) =~= s);
    }
    Ok(out)
}

/// Encrypts `plaintext` under a 32-byte `key` with a fresh random nonce: the
/// nonce, then the ciphertext and its tag. Whatever it returns decrypts under
/// the same key to `plaintext`.
pub fn encrypt(plaintext: &str, key: &[u8]) -> (r: Result<Vec<u8>, TextError>)
    ensures
        key@.len() != KEY_LEN <==> r == Err::<Vec<u8>, TextError>(TextError::InvalidKeyLength),
        r == Err::<Vec<u8>, TextError>(TextError::PlaintextTooLong) ==> !within_block_limit(
            encode_utf8(plaintext@),
        ),
        r is Err ==> r == Err::<Vec<u8>, TextError>(TextError::InvalidKeyLength) || r == Err::<
            Vec<u8>,
            TextError,
        >(TextError::RandomUnavailable) || r == Err::<Vec<u8>, TextError>(
            TextError::PlaintextTooLong,
        ),
        r is Ok ==> exists|nonce: Seq<u8>|
            #![trigger sealed_of(key@, nonce, encode_utf8(plaintext@))]
            nonce.len() == NONCE_LEN && r->Ok_0@ == nonce + sealed_of(
                key@,
                nonce,
                encode_utf8(plaintext@),
            ),
        r is Ok ==> r->Ok_0@.len() == NONCE_LEN + encode_utf8(plaintext@).len() + TAG_LEN,
        r is Ok ==> decrypt_spec(r->Ok_0@, key@) == Ok::<Seq<char>, TextError>(plaintext@),
{
    if key.len() != KEY_LEN {
        return Err(TextError::InvalidKeyLength);
    }
    let mut nonce: [u8; 12] = [0u8; 12];
    match fill_random(&mut nonce) {
        Ok(()) => {},
        Err(_) => return Err(TextError::RandomUnavailable),
    }
    seal_with_nonce(plaintext, key, nonce)
}

/// Decrypts `data` (the nonce, then the ciphertext and its tag) under a
/// 32-byte `key`, and reads the result as UTF-8 text.
pub fn decrypt(data: &[u8], key: &[u8]) -> (r: Result<String, TextError>)
    ensures
        text_result(r) == decrypt_spec(data@, key@),
{
    if key.len() != KEY_LEN {
        return Err(TextError::InvalidKeyLength);
    }
    if data.len() < NONCE_LEN + TAG_LEN {
        return Err(TextError::MalformedCiphertext);
    }
    let key_bytes: [u8; 32] = copy_prefix(key);
    assert(key_bytes@ =~= key@);
    let nonce: [u8; 12] = copy_prefix(data);
    let sealed = vstd::slice::slice_subrange(data, NONCE_LEN, data.len());
    let opened = match chacha_open(&key_bytes, &nonce, sealed) {
        Ok(p) => p,
        Err(_) => return Err(TextError::AuthenticationFailed),
    };
    match utf8_string(opened) {
        Some(s) => Ok(s),
        None => Err(TextError::InvalidEncoding),
    }
}

/// What `encrypt_text` may return for a base64 key. With a 32-byte key it
/// fails only for want of randomness or for a plaintext past the block limit;
/// otherwise its text is the base64 form of a nonce followed by the sealed
/// plaintext,
/// which decrypts under the same key to `plaintext`.
pub open spec fn encrypt_text_outcome(plaintext: Seq<char>, key_base64: Seq<char>, r: Result<String, TextError>) -> bool {
    match standard_decoded(key_base64) {
        None => r == Err::<String, TextError>(TextError::InvalidBase64),
        Some(key) => {
            &&& key.len() != KEY_LEN <==> r == Err::<String, TextError>(TextError::InvalidKeyLength)
            &&& key.len() == KEY_LEN && r is Err ==> (r == Err::<String, TextError>(
                TextError::RandomUnavailable,
            ) || (r == Err::<String, TextError>(TextError::PlaintextTooLong) && !within_block_limit(
                encode_utf8(plaintext),
            )))
            &&& r is Ok ==> exists|nonce: Seq<u8>|
                #![trigger sealed_of(key, nonce, encode_utf8(plaintext))]
                nonce.len() == NONCE_LEN && r->Ok_0@ == standard_encoded(
                    nonce + sealed_of(key, nonce, encode_utf8(plaintext)),
                ) && standard_decoded(r->Ok_0@) == Some(
                    nonce + sealed_of(key, nonce, encode_utf8(plaintext)),
                )
            &&& r is Ok ==> match standard_decoded(r->Ok_0@) {
                Some(out) => {
                    &&& out.len() == NONCE_LEN + encode_utf8(plaintext).len() + TAG_LEN
                    &&& decrypt_spec(out, key) == Ok::<Seq<char>, TextError>(plaintext)
                },
                None => false,
            }
            &&& r is Ok ==> decrypt_text_spec(r->Ok_0@, key_base64) == Ok::<Seq<char>, TextError>(
                plaintext,
            )
        },
    }
}

/// Encrypts `plaintext` under a key given in standard base64, and gives the
/// result in standard base64.
pub fn encrypt_text(plaintext: &str, key_base64: &str) -> (r: Result<String, TextError>)
    ensures
        encrypt_text_outcome(plaintext@, key_base64@, r),
{
    let key = match standard_decode(key_base64) {
        Ok(k) => k,
        Err(_) => return Err(TextError::InvalidBase64),
    };
    let out = match encrypt(plaintext, key.as_slice()) {
        Ok(o) => o,
        Err(e) => return Err(e),
    };
    Ok(standard_encode(out.as_slice()))
}

/// What decrypting standard base64 ciphertext under a standard base64 key
/// gives.
pub open spec fn decrypt_text_spec(ciphertext_base64: Seq<char>, key_base64: Seq<char>) -> Result<
    Seq<char>,
    TextError,
> {
    match standard_decoded(key_base64) {
        None => Err(TextError::InvalidBase64),
        Some(key) => if key.len() != KEY_LEN {
            Err(TextError::InvalidKeyLength)
        } else {
            match standard_decoded(ciphertext_base64) {
                None => Err(TextError::InvalidBase64),
                Some(data) => decrypt_spec(data, key),
            }
        },
    }
}

/// Decrypts ciphertext given in standard base64 under a key given in standard
/// base64.
pub fn decrypt_text(ciphertext_base64: &str, key_base64: &str) -> (r: Result<String, TextError>)
    ensures
        text_result(r) == decrypt_text_spec(ciphertext_base64@, key_base64@),
{
    let key = match standard_decode(key_base64) {
        Ok(k) => k,
        Err(_) => return Err(TextError::InvalidBase64),
    };
    if key.len() != KEY_LEN {
        return Err(TextError::InvalidKeyLength);
    }
    let data = match standard_decode(ciphertext_base64) {
        Ok(d) => d,
        Err(_) => return Err(TextError::InvalidBase64),
    };
    decrypt(data.as_slice(), key.as_slice())
}

} // verus!
