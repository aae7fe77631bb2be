//! Base64 text forms of binary data, in the three alphabets the tools use.

use base64::engine::general_purpose::{STANDARD, URL_SAFE, URL_SAFE_NO_PAD};
use base64::Engine;
use vstd::prelude::*;

verus! {

#[verifier::external_type_specification]
#[verifier::external_body]
pub struct ExDecodeError(base64::DecodeError);

/// The standard padded base64 form of `bytes`.
pub uninterp spec fn standard_encoded(bytes: Seq<u8>) -> Seq<char>;

/// The bytes that standard padded base64 text stands for, if it is valid.
pub uninterp spec fn standard_decoded(text: Seq<char>) -> Option<Seq<u8>>;

/// The URL-safe padded base64 form of `bytes`.
pub uninterp spec fn url_safe_encoded(bytes: Seq<u8>) -> Seq<char>;

/// The bytes that URL-safe padded base64 text stands for, if it is valid.
pub uninterp spec fn url_safe_decoded(text: Seq<char>) -> Option<Seq<u8>>;

/// The URL-safe unpadded base64 form of `bytes`.
pub uninterp spec fn url_safe_no_pad_encoded(bytes: Seq<u8>) -> Seq<char>;

/// The bytes that URL-safe unpadded base64 text stands for, if it is valid.
pub uninterp spec fn url_safe_no_pad_decoded(text: Seq<char>) -> Option<Seq<u8>>;

/// `text` without leading and trailing white space.
pub uninterp spec fn trimmed(text: Seq<char>) -> Seq<char>;

/// Relies on base64's `Engine::encode` with the `STANDARD` engine; the same
/// engine decodes the result back to the bytes.
#[verifier::external_body]
pub(crate) fn standard_encode(bytes: &[u8]) -> (r: String)
    ensures
        r@ == standard_encoded(bytes@),
        standard_decoded(r@) == Some(bytes@),
{
    STANDARD.encode(bytes)
}

/// Relies on base64's `Engine::decode` with the `STANDARD` engine.
#[verifier::external_body]
pub(crate) fn standard_decode(text: &str) -> (r: Result<Vec<u8>, base64::DecodeError>)
    ensures
        match r {
            Ok(b) => standard_decoded(text@) == Some(b@),
            Err(_) => standard_decoded(text@) is None,
        },
{
    STANDARD.decode(text)
}

/// Relies on base64's `Engine::encode` with the `URL_SAFE` engine.
#[verifier::external_body]
fn url_safe_encode(bytes: &[u8]) -> (r: String)
    ensures
        r@ == url_safe_encoded(bytes@),
{
    URL_SAFE.encode(bytes)
}

/// Relies on base64's `Engine::decode` with the `URL_SAFE` engine.
#[verifier::external_body]
fn url_safe_decode(text: &str) -> (r: Result<Vec<u8>, base64::DecodeError>)
    ensures
        match r {
            Ok(b) => url_safe_decoded(text@) == Some(b@),
            Err(_) => url_safe_decoded(text@) is None,
        },
{
    URL_SAFE.decode(text)
}

/// Relies on base64's `Engine::encode` with the `URL_SAFE_NO_PAD` engine; the
/// same engine decodes the result back to the bytes. Its alphabet holds no
/// white space, so trimming leaves the result as it is.
#[verifier::external_body]
pub(crate) fn url_safe_no_pad_encode(bytes: &[u8]) -> (r: String)
    ensures
        r@ == url_safe_no_pad_encoded(bytes@),
        url_safe_no_pad_decoded(r@) == Some(bytes@),
        trimmed(r@) == r@,
{
    URL_SAFE_NO_PAD.encode(bytes)
}

/// Relies on base64's `Engine::decode` with the `URL_SAFE_NO_PAD` engine.
#[verifier::external_body]
pub(crate) fn url_safe_no_pad_decode(text: &str) -> (r: Result<Vec<u8>, base64::DecodeError>)
    ensures
        match r {
            Ok(b) => url_safe_no_pad_decoded(text@) == Some(b@),
            Err(_) => url_safe_no_pad_decoded(text@) is None,
        },
{
    URL_SAFE_NO_PAD.decode(text)
}

/// Relies on `str::trim`: the string without leading and trailing white
/// space, which depends on its characters alone.
#[verifier::external_body]
pub(crate) fn trim(text: &str) -> (r: &str)
    ensures
        r@ == trimmed(text@),
{
    text.trim()
}

/// Text that is not valid base64.
#[derive(Debug, Clone, Copy, PartialEq, Eq, Structural)]
pub struct InvalidBase64;

/// The URL-safe padded base64 form of `data`.
pub fn process_encode(data: &[u8]) -> (r: String)
    ensures
        r@ == url_safe_encoded(data@),
{
    url_safe_encode(data)
}

/// The bytes that URL-safe padded base64 text stands for, once white space
/// around it is removed.
pub fn process_decode(text: &str) -> (r: Result<Vec<u8>, InvalidBase64>)
    ensures
        match r {
            Ok(b) => url_safe_decoded(trimmed(text@)) == Some(b@),
            Err(_) => url_safe_decoded(trimmed(text@)) is None,
        },
{
    match url_safe_decode(trim(text)) {
        Ok(b) => Ok(b),
        Err(_) => Err(InvalidBase64),
    }
}

/// A signature in the text form the command line prints: URL-safe base64
/// without padding.
pub fn encode_signature(sig: &[u8]) -> (r: String)
    ensures
        r@ == url_safe_no_pad_encoded(sig@),
{
    url_safe_no_pad_encode(sig)
}

/// The bytes of a signature given in URL-safe base64 without padding.
pub fn decode_signature(text: &str) -> (r: Result<Vec<u8>, InvalidBase64>)
    ensures
        match r {
            Ok(b) => url_safe_no_pad_decoded(text@) == Some(b@),
            Err(_) => url_safe_no_pad_decoded(text@) is None,
        },
{
    match url_safe_no_pad_decode(text) {
        Ok(b) => Ok(b),
        Err(_) => Err(InvalidBase64),
    }
}

} // verus!
