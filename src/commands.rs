//! What the text commands compute between reading their input and writing
//! their output: signatures and ciphertexts in URL-safe base64 text.

use crate::aead::{
    decrypt_text, decrypt_text_spec, encrypt_text, encrypt_text_outcome, text_result, utf8_string,
    within_block_limit,
};
use crate::encoding::{
    decode_signature, encode_signature, standard_encode, standard_encoded, trim, trimmed,
    url_safe_no_pad_decode, url_safe_no_pad_decoded, url_safe_no_pad_encode,
    url_safe_no_pad_encoded,
};
use crate::error::TextError;
use crate::format::TextSignFormat;
use crate::signing::{process_sign, process_verify, sign_spec, verify_spec};
use vstd::prelude::*;
use vstd::utf8::{decode_utf8, encode_utf8, valid_utf8};

verus! {

/// Signs `data` and gives the signature as URL-safe base64 without padding.
pub fn sign_command(data: &[u8], key: &[u8], format: TextSignFormat) -> (r: Result<String, TextError>)
    ensures
        match sign_spec(format, key@, data@) {
            Ok(sig) => r is Ok && r->Ok_0@ == url_safe_no_pad_encoded(sig),
            Err(e) => r == Err::<String, TextError>(e),
        },
{
    match process_sign(data, key, format) {
        Ok(sig) => Ok(encode_signature(sig.as_slice())),
        Err(e) => Err(e),
    }
}

/// Verifies a signature given as URL-safe base64 without padding.
pub fn verify_command(data: &[u8], key: &[u8], sig_text: &str, format: TextSignFormat) -> (r: Result<
    bool,
    TextError,
>)
    ensures
        match url_safe_no_pad_decoded(sig_text@) {
            None => r == Err::<bool, TextError>(TextError::InvalidBase64),
            Some(sig) => r == verify_spec(format, key@, sig, data@),
        },
{
    let sig = match decode_signature(sig_text) {
        Ok(s) => s,
        Err(_) => return Err(TextError::InvalidBase64),
    };
    process_verify(data, key, sig.as_slice(), format)
}

/// The line printed after a verification.
pub fn verify_message(verified: bool) -> (r: &'static str)
    ensures
        verified ==> r@ == "Signature verified"@,
        !verified ==> r@ == "Signature not verified"@,
{
    if verified {
        "Signature verified"
    } else {
        "Signature not verified"
    }
}

/// What `decrypt_command` gives for `input` under the raw characters of `key`.
pub open spec fn decrypt_command_spec(input: Seq<u8>, key: Seq<char>) -> Result<Seq<char>, TextError> {
    if !valid_utf8(input) {
        Err(TextError::InvalidInput)
    } else {
        match url_safe_no_pad_decoded(trimmed(decode_utf8(input))) {
            None => Err(TextError::InvalidBase64),
            Some(inner) => if !valid_utf8(inner) {
                Err(TextError::InvalidInput)
            } else {
                decrypt_text_spec(decode_utf8(inner), standard_encoded(encode_utf8(key)))
            },
        }
    }
}

/// Encrypts text `input` under the raw characters of `key`, and gives the
/// result as URL-safe base64 (without padding) of its standard base64 form.
/// `decrypt_command` under the same key gives the text back.
pub fn encrypt_command(input: &[u8], key: &str) -> (r: Result<String, TextError>)
    ensures
        !valid_utf8(input@) ==> r == Err::<String, TextError>(TextError::InvalidInput),
        valid_utf8(input@) ==> (encode_utf8(key@).len() != 32 <==> r == Err::<String, TextError>(
            TextError::InvalidKeyLength,
        )),
        valid_utf8(input@) && encode_utf8(key@).len() == 32 && r is Err ==> (r == Err::<
            String,
            TextError,
        >(TextError::RandomUnavailable) || (r == Err::<String, TextError>(
            TextError::PlaintextTooLong,
        ) && !within_block_limit(input@))),
        r is Ok ==> exists|e: String|
            #![trigger encode_utf8(e@)]
            encrypt_text_outcome(
                decode_utf8(input@),
                standard_encoded(encode_utf8(key@)),
                Ok::<String, TextError>(e),
            ) && r->Ok_0@ == url_safe_no_pad_encoded(encode_utf8(e@)),
        r is Ok ==> decrypt_command_spec(encode_utf8(r->Ok_0@), key@) == Ok::<
            Seq<char>,
            TextError,
        >(decode_utf8(input@)),
{
    let v = vstd::slice::slice_to_vec(input);
    let text = match utf8_string(v) {
        Some(t) => t,
        None => return Err(TextError::InvalidInput),
    };
    proof {
        vstd::utf8::decode_utf8_encode_utf8(input@);
    }
    let key_base64 = standard_encode(key.as_bytes());
    let encrypted = match encrypt_text(text.as_str(), key_base64.as_str()) {
        Ok(e) => e,
        Err(e) => return Err(e),
    };
    let out = url_safe_no_pad_encode(encrypted.as_str().as_bytes());
    proof {
        broadcast use {vstd::utf8::encode_utf8_valid_utf8, vstd::utf8::encode_utf8_decode_utf8};

        assert(decode_utf8(encode_utf8(out@)) == out@);
        assert(decode_utf8(encode_utf8(encrypted@)) == encrypted@);
    }
    Ok(out)
}

/// Decrypts what `encrypt_command` gives, under the raw characters of `key`.
pub fn decrypt_command(input: &[u8], key: &str) -> (r: Result<String, TextError>)
    ensures
        text_result(r) == decrypt_command_spec(input@, key@),
{
    let v = vstd::slice::slice_to_vec(input);
    let text = match utf8_string(v) {
        Some(t) => t,
        None => return Err(TextError::InvalidInput),
    };
    let inner = match url_safe_no_pad_decode(trim(text.as_str())) {
        Ok(b) => b,
        Err(_) => return Err(TextError::InvalidBase64),
    };
    let inner_text = match utf8_string(inner) {
        Some(t) => t,
        None => return Err(TextError::InvalidInput),
    };
    let key_base64 = standard_encode(key.as_bytes());
    decrypt_text(inner_text.as_str(), key_base64.as_str())
}

} // verus!
