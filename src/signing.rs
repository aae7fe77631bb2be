//! Signing and verification selected by algorithm tag, key generation, and
//! the laws that relate them.

use crate::error::TextError;
use crate::format::TextSignFormat;
use crate::keys::{
    blake3_keyed_hash_of, ed25519_accepts, ed25519_point_valid, ed25519_public_of,
    ed25519_signature_of, key_prefix, Blake3, Ed25519Signer, Ed25519Verifier, KeyFile, KEY_LEN,
    SIGNATURE_LEN,
};
use crate::genpass::selected_pool;
use vstd::prelude::*;
use vstd::utf8::{encode_utf8, is_ascii_chars};

verus! {

/// The bytes of an `Ok`, or the error.
pub open spec fn bytes_result(r: Result<Vec<u8>, TextError>) -> Result<Seq<u8>, TextError> {
    match r {
        Ok(v) => Ok(v@),
        Err(e) => Err(e),
    }
}

/// What signing `data` with `key` under `format` gives.
pub open spec fn sign_spec(format: TextSignFormat, key: Seq<u8>, data: Seq<u8>) -> Result<
    Seq<u8>,
    TextError,
> {
    if key.len() < KEY_LEN {
        Err(TextError::KeyLength)
    } else {
        match format {
            TextSignFormat::Blake3 => Ok(blake3_keyed_hash_of(key_prefix(key), data)),
            TextSignFormat::Ed25519 => Ok(ed25519_signature_of(key_prefix(key), data)),
        }
    }
}

/// What verifying `sig` over `data` with `key` under `format` gives.
pub open spec fn verify_spec(format: TextSignFormat, key: Seq<u8>, sig: Seq<u8>, data: Seq<u8>) -> Result<
    bool,
    TextError,
> {
    if key.len() < KEY_LEN {
        Err(TextError::KeyLength)
    } else {
        match format {
            TextSignFormat::Blake3 => Ok(sig == blake3_keyed_hash_of(key_prefix(key), data)),
            TextSignFormat::Ed25519 => {
                if !ed25519_point_valid(key_prefix(key)) {
                    Err(TextError::InvalidPoint)
                } else if sig.len() != SIGNATURE_LEN {
                    Err(TextError::MalformedSignature)
                } else {
                    Ok(ed25519_accepts(key_prefix(key), data, sig))
                }
            },
        }
    }
}

/// Signs `data` with the key that `format` names, built from `key`.
///
/// Whatever it returns verifies: under the same key for Blake3, under the
/// public key of the same seed for Ed25519. A Blake3 signature with any one
/// byte changed does not.
pub fn process_sign(data: &[u8], key: &[u8], format: TextSignFormat) -> (r: Result<
    Vec<u8>,
    TextError,
>)
    ensures
        bytes_result(r) == sign_spec(format, key@, data@),
        r is Ok && format == TextSignFormat::Blake3 ==> r->Ok_0@.len() == 32,
        r is Ok && format == TextSignFormat::Ed25519 ==> r->Ok_0@.len() == SIGNATURE_LEN,
        r is Ok && format == TextSignFormat::Blake3 ==> forall|i: int, b: u8|
            0 <= i < 32 && b != r->Ok_0@[i] ==> #[trigger] verify_spec(
                format,
                key@,
                r->Ok_0@.update(i, b),
                data@,
            ) == Ok::<bool, TextError>(false),
        r is Ok && format == TextSignFormat::Blake3 ==> verify_spec(
            format,
            key@,
            r->Ok_0@,
            data@,
        ) == Ok::<bool, TextError>(true),
        r is Ok && format == TextSignFormat::Ed25519 ==> verify_spec(
            format,
            ed25519_public_of(key_prefix(key@)),
            r->Ok_0@,
            data@,
        ) == Ok::<bool, TextError>(true),
{
    match format {
        TextSignFormat::Blake3 => {
            let signer = match Blake3::try_new(key) {
                Ok(k) => k,
                Err(e) => return Err(e),
            };
            Ok(signer.sign(data))
        },
        TextSignFormat::Ed25519 => {
            let signer = match Ed25519Signer::try_new(key) {
                Ok(k) => k,
                Err(e) => return Err(e),
            };
            let public = signer.public_key();
            let sig = signer.sign(data);
            assert(key_prefix(public@) =~= public@);
            Ok(sig)
        },
    }
}

/// Verifies `sig` over `data` with the key that `format` names, built from
/// `key`. A signature that does not match is `Ok(false)`, not an error.
pub fn process_verify(data: &[u8], key: &[u8], sig: &[u8], format: TextSignFormat) -> (r: Result<
    bool,
    TextError,
>)
    ensures
        r == verify_spec(format, key@, sig@, data@),
{
    match format {
        TextSignFormat::Blake3 => {
            let verifier = match Blake3::try_new(key) {
                Ok(k) => k,
                Err(e) => return Err(e),
            };
            Ok(verifier.verify(data, sig))
        },
        TextSignFormat::Ed25519 => {
            let verifier = match Ed25519Verifier::try_new(key) {
                Ok(k) => k,
                Err(e) => return Err(e),
            };
            verifier.verify(data, sig)
        },
    }
}

/// The named key files that `format` needs: `blake3.txt` for Blake3;
/// `ed25519.sk` and `ed25519.pk` for Ed25519. It fails only when the random
/// source cannot be read.
pub fn process_generate(format: TextSignFormat) -> (r: Result<Vec<KeyFile>, TextError>)
    ensures
        r is Err ==> r == Err::<Vec<KeyFile>, TextError>(TextError::RandomUnavailable),
        r is Ok && format == TextSignFormat::Blake3 ==> {
            let r = r->Ok_0;
            &&& r@.len() == 1
            &&& r@[0].name@ == "blake3.txt"@
            &&& r@[0].bytes@.len() == KEY_LEN
            &&& exists|p: Seq<char>|
                #![trigger encode_utf8(p)]
                {
                    &&& p.len() == KEY_LEN
                    &&& is_ascii_chars(p)
                    &&& forall|i: int|
                        0 <= i < p.len() ==> selected_pool(true, true, true, true).contains(
                            #[trigger] p[i],
                        )
                    &&& r@[0].bytes@ == encode_utf8(p)
                }
        },
        r is Ok && format == TextSignFormat::Ed25519 ==> {
            let r = r->Ok_0;
            &&& r@.len() == 2
            &&& r@[0].name@ == "ed25519.sk"@
            &&& r@[1].name@ == "ed25519.pk"@
            &&& r@[0].bytes@.len() == KEY_LEN
            &&& r@[1].bytes@.len() == KEY_LEN
            &&& r@[1].bytes@ == ed25519_public_of(r@[0].bytes@)
            &&& ed25519_point_valid(r@[1].bytes@)
        },
{
    match format {
        TextSignFormat::Blake3 => Blake3::generate(),
        TextSignFormat::Ed25519 => Ed25519Signer::generate(),
    }
}

/// A Blake3 signature verifies under the key that made it, for every key of
/// at least 32 bytes and all data.
pub proof fn lemma_blake3_sign_then_verify(key: Seq<u8>, data: Seq<u8>)
    requires
        key.len() >= KEY_LEN,
    ensures
        sign_spec(TextSignFormat::Blake3, key, data) is Ok,
        verify_spec(
            TextSignFormat::Blake3,
            key,
            sign_spec(TextSignFormat::Blake3, key, data)->Ok_0,
            data,
        ) == Ok::<bool, TextError>(true),
{
}

/// Changing any one byte of a Blake3 signature makes it fail verification
/// under the same key and data: the answer is `false`, not an error.
pub proof fn lemma_blake3_tampered_signature_fails(key: Seq<u8>, data: Seq<u8>, i: int, b: u8)
    requires
        key.len() >= KEY_LEN,
        0 <= i < sign_spec(TextSignFormat::Blake3, key, data)->Ok_0.len(),
        b != sign_spec(TextSignFormat::Blake3, key, data)->Ok_0[i],
    ensures
        verify_spec(
            TextSignFormat::Blake3,
            key,
            sign_spec(TextSignFormat::Blake3, key, data)->Ok_0.update(i, b),
            data,
        ) == Ok::<bool, TextError>(false),
{
    let sig = sign_spec(TextSignFormat::Blake3, key, data)->Ok_0;
    assert(sig.update(i, b)[i] != sig[i]);
}

/// Ed25519 verification with any public key that decodes and any 64-byte
/// signature answers yes or no, never with an error.
pub proof fn lemma_ed25519_verify_answers(public: Seq<u8>, sig: Seq<u8>, data: Seq<u8>)
    requires
        public.len() >= KEY_LEN,
        ed25519_point_valid(key_prefix(public)),
        sig.len() == SIGNATURE_LEN,
    ensures
        verify_spec(TextSignFormat::Ed25519, public, sig, data) is Ok,
{
}

/// Key bytes are accepted exactly when there are at least 32 of them, and
/// only the first 32 count.
pub proof fn lemma_key_prefix_decides(format: TextSignFormat, a: Seq<u8>, b: Seq<u8>, data: Seq<u8>)
    requires
        a.len() >= KEY_LEN,
        b.len() >= KEY_LEN,
        a.subrange(0, KEY_LEN as int) == b.subrange(0, KEY_LEN as int),
    ensures
        sign_spec(format, a, data) == sign_spec(format, b, data),
        forall|sig: Seq<u8>| verify_spec(format, a, sig, data) == #[trigger] verify_spec(format, b, sig, data),
{
}

} // verus!
