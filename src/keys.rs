//! Key material: fixed-size secret and public keys with validated construction,
//! and the keyed-hash and Ed25519 primitives they are used with.

use crate::aead::fill_random;
use crate::error::TextError;
use crate::genpass::{process_genpass, selected_pool};
use ed25519_dalek::{Signature, Signer, SigningKey, Verifier, VerifyingKey};
use vstd::prelude::*;
use vstd::utf8::{encode_utf8, is_ascii_chars};

verus! {

/// Length in bytes of every key and seed this library handles.
pub const KEY_LEN: usize = 32;

/// Length in bytes of an Ed25519 signature.
pub const SIGNATURE_LEN: usize = 64;

/// The first `KEY_LEN` bytes of `bytes`: what a key is built from.
pub open spec fn key_prefix(bytes: Seq<u8>) -> Seq<u8> {
    bytes.subrange(0, KEY_LEN as int)
}

/// The Blake3 keyed hash of `data` under the 32-byte `key`.
pub uninterp spec fn blake3_keyed_hash_of(key: Seq<u8>, data: Seq<u8>) -> Seq<u8>;

/// The Ed25519 public key that a 32-byte seed determines.
pub uninterp spec fn ed25519_public_of(seed: Seq<u8>) -> Seq<u8>;

/// The RFC 8032 signature of `data` under a 32-byte seed.
pub uninterp spec fn ed25519_signature_of(seed: Seq<u8>, data: Seq<u8>) -> Seq<u8>;

/// Whether 32 bytes are the compressed form of an Ed25519 curve point.
pub uninterp spec fn ed25519_point_valid(public: Seq<u8>) -> bool;

/// Whether the public key accepts a 64-byte signature over `data`.
pub uninterp spec fn ed25519_accepts(public: Seq<u8>, data: Seq<u8>, signature: Seq<u8>) -> bool;

/// Relies on `blake3::keyed_hash`: the 32-byte keyed hash of `data` under
/// `key`, which depends on the two alone.
#[verifier::external_body]
fn blake3_keyed_hash(key: &[u8; 32], data: &[u8]) -> (r: [u8; 32])
    ensures
        r@ == blake3_keyed_hash_of(key@, data@),
{
    *blake3::keyed_hash(key, data).as_bytes()
}

/// Relies on ed25519-dalek's `SigningKey::verifying_key` (after
/// `SigningKey::from_bytes`): the public key of a seed, which depends on the
/// seed alone. It is the compression of a point that the key holds, so it
/// decompresses again.
#[verifier::external_body]
fn ed25519_public_key(seed: &[u8; 32]) -> (r: [u8; 32])
    ensures
        r@ == ed25519_public_of(seed@),
        ed25519_point_valid(r@),
{
    SigningKey::from_bytes(seed).verifying_key().to_bytes()
}

/// Relies on ed25519-dalek's `Signer::sign` for `SigningKey`: RFC 8032
/// signing, deterministic in the seed and the message. The public key of the
/// same seed accepts the result.
#[verifier::external_body]
fn ed25519_sign(seed: &[u8; 32], data: &[u8]) -> (r: [u8; 64])
    ensures
        r@ == ed25519_signature_of(seed@, data@),
        ed25519_accepts(ed25519_public_of(seed@), data@, r@),
{
    SigningKey::from_bytes(seed).sign(data).to_bytes()
}

/// Relies on ed25519-dalek's `VerifyingKey::from_bytes`: it succeeds exactly
/// when the bytes decompress to a curve point.
#[verifier::external_body]
fn ed25519_decodes(public: &[u8; 32]) -> (r: bool)
    ensures
        r == ed25519_point_valid(public@),
{
    VerifyingKey::from_bytes(public).is_ok()
}

/// Relies on ed25519-dalek's `Verifier::verify` for `VerifyingKey`: whether the
/// key accepts the signature over the message.
#[verifier::external_body]
fn ed25519_verify(public: &[u8; 32], data: &[u8], signature: &[u8; 64]) -> (r: bool)
    requires
        ed25519_point_valid(public@),
    ensures
        r == ed25519_accepts(public@, data@, signature@),
{
    match VerifyingKey::from_bytes(public) {
        Ok(key) => key.verify(data, &Signature::from_bytes(signature)).is_ok(),
        Err(_) => false,
    }
}

/// Copies the first `N` bytes of `bytes` into an array.
pub fn copy_prefix<const N: usize>(bytes: &[u8]) -> (r: [u8; N])
    requires
        bytes@.len() >= N,
    ensures
        r@ == bytes@.subrange(0, N as int),
{
    let mut out: [u8; N] = [0u8; N];
    let mut i: usize = 0;
    while i < N
        invariant
            i <= N,
            bytes@.len() >= N,
            out@.len() == N,
            forall|j: int| 0 <= j < i ==> out@[j] == bytes@[j],
        decreases N - i,
    {
        out[i] = bytes[i];
        i = i + 1;
    }
    assert(out@ =~= bytes@.subrange(0, N as int));
    out
}

/// Compares two byte strings without stopping at the first difference.
pub fn same_bytes(a: &[u8], b: &[u8]) -> (r: bool)
    ensures
        r == (a@ == b@),
{
    if a.len() != b.len() {
        return false;
    }
    let mut same: bool = true;
    let mut i: usize = 0;
    while i < a.len()
        invariant
            a@.len() == b@.len(),
            i <= a@.len(),
            same == (forall|j: int| 0 <= j < i ==> a@[j] == b@[j]),
        decreases a@.len() - i,
    {
        let equal_here: bool = a[i] == b[i];
        same = same && equal_here;
        i = i + 1;
    }
    if same {
        assert(a@ =~= b@);
    }
    same
}

/// A Blake3 keyed-hash key. It is a message authentication code: the same 32
/// bytes sign and verify.
pub struct Blake3 {
    key: [u8; 32],
}

impl Blake3 {
    /// The key bytes.
    pub closed spec fn key_bytes(&self) -> Seq<u8> {
        self.key@
    }

    pub fn new(key: [u8; 32]) -> (r: Blake3)
        ensures
            r.key_bytes() == key@,
    {
        Blake3 { key }
    }

    /// Builds a key from the first 32 bytes of `key`: longer input is cut,
    /// shorter input is refused.
    pub fn try_new(key: &[u8]) -> (r: Result<Blake3, TextError>)
        ensures
            key@.len() < KEY_LEN <==> r == Err::<Blake3, TextError>(TextError::KeyLength),
            key@.len() >= KEY_LEN <==> r is Ok,
            r is Ok ==> r->Ok_0.key_bytes() == key_prefix(key@),
    {
        if key.len() < KEY_LEN {
            return Err(TextError::KeyLength);
        }
        Ok(Blake3::new(copy_prefix(key)))
    }

    /// The keyed hash of `data`: 32 bytes, the same for the same key and data.
    pub fn sign(&self, data: &[u8]) -> (r: Vec<u8>)
        ensures
            r@ == blake3_keyed_hash_of(self.key_bytes(), data@),
            r@.len() == 32,
    {
        let mac = blake3_keyed_hash(&self.key, data);
        vstd::slice::slice_to_vec(mac.as_slice())
    }

    /// Whether `sig` is the keyed hash of `data`. A mismatch is an ordinary
    /// `false`, never an error.
    pub fn verify(&self, data: &[u8], sig: &[u8]) -> (r: bool)
        ensures
            r == (sig@ == blake3_keyed_hash_of(self.key_bytes(), data@)),
    {
        let mac = blake3_keyed_hash(&self.key, data);
        same_bytes(mac.as_slice(), sig)
    }
}

/// An Ed25519 signing key: its 32-byte seed, and the public key it determines.
pub struct Ed25519Signer {
    seed: [u8; 32],
    public: [u8; 32],
}

impl Ed25519Signer {
    #[verifier::type_invariant]
    spec fn inv(&self) -> bool {
        &&& self.public@ == ed25519_public_of(self.seed@)
        &&& ed25519_point_valid(self.public@)
    }

    /// The seed bytes.
    pub closed spec fn seed_bytes(&self) -> Seq<u8> {
        self.seed@
    }

    pub fn new(key: &[u8; 32]) -> (r: Ed25519Signer)
        ensures
            r.seed_bytes() == key@,
    {
        let public = ed25519_public_key(key);
        Ed25519Signer { seed: *key, public }
    }

    /// Builds a signing key from the first 32 bytes of `key`: longer input is
    /// cut, shorter input is refused.
    pub fn try_new(key: &[u8]) -> (r: Result<Ed25519Signer, TextError>)
        ensures
            key@.len() < KEY_LEN <==> r == Err::<Ed25519Signer, TextError>(TextError::KeyLength),
            key@.len() >= KEY_LEN <==> r is Ok,
            r is Ok ==> r->Ok_0.seed_bytes() == key_prefix(key@),
    {
        if key.len() < KEY_LEN {
            return Err(TextError::KeyLength);
        }
        let seed: [u8; 32] = copy_prefix(key);
        Ok(Ed25519Signer::new(&seed))
    }

    /// The public key that verifies this key's signatures.
    pub fn public_key(&self) -> (r: [u8; 32])
        ensures
            r@ == ed25519_public_of(self.seed_bytes()),
            ed25519_point_valid(r@),
    {
        proof {
            use_type_invariant(self);
        }
        self.public
    }

    /// The 64-byte signature of `data`; the public key of the same seed
    /// accepts it.
    pub fn sign(&self, data: &[u8]) -> (r: Vec<u8>)
        ensures
            r@ == ed25519_signature_of(self.seed_bytes(), data@),
            r@.len() == SIGNATURE_LEN,
            ed25519_accepts(ed25519_public_of(self.seed_bytes()), data@, r@),
    {
        let sig = ed25519_sign(&self.seed, data);
        vstd::slice::slice_to_vec(sig.as_slice())
    }
}

/// An Ed25519 public key, held only once it is known to decode to a point.
pub struct Ed25519Verifier {
    key: [u8; 32],
}

impl Ed25519Verifier {
    #[verifier::type_invariant]
    spec fn inv(&self) -> bool {
        ed25519_point_valid(self.key@)
    }

    /// The public key bytes.
    pub closed spec fn key_bytes(&self) -> Seq<u8> {
        self.key@
    }

    /// Builds a public key from the first 32 bytes of `key`: shorter input is
    /// refused, and so are bytes that are no curve point.
    pub fn try_new(key: &[u8]) -> (r: Result<Ed25519Verifier, TextError>)
        ensures
            key@.len() < KEY_LEN <==> r == Err::<Ed25519Verifier, TextError>(TextError::KeyLength),
            key@.len() >= KEY_LEN ==> (r == Err::<Ed25519Verifier, TextError>(TextError::InvalidPoint)
                <==> !ed25519_point_valid(key_prefix(key@))),
            r is Ok <==> key@.len() >= KEY_LEN && ed25519_point_valid(key_prefix(key@)),
            key@.len() == KEY_LEN ==> (r is Ok <==> ed25519_point_valid(key@)),
            r is Ok ==> r->Ok_0.key_bytes() == key_prefix(key@) && ed25519_point_valid(
                r->Ok_0.key_bytes(),
            ),
    {
        if key.len() < KEY_LEN {
            return Err(TextError::KeyLength);
        }
        let bytes: [u8; 32] = copy_prefix(key);
        assert(key@.len() == KEY_LEN ==> key_prefix(key@) =~= key@);
        if !ed25519_decodes(&bytes) {
            return Err(TextError::InvalidPoint);
        }
        Ok(Ed25519Verifier { key: bytes })
    }

    /// Whether this key accepts `sig` over `data`. A signature that is not
    /// exactly 64 bytes is malformed; any 64 bytes get a yes or a no.
    pub fn verify(&self, data: &[u8], sig: &[u8]) -> (r: Result<bool, TextError>)
        ensures
            sig@.len() != SIGNATURE_LEN <==> r == Err::<bool, TextError>(TextError::MalformedSignature),
            sig@.len() == SIGNATURE_LEN ==> r == Ok::<bool, TextError>(
                ed25519_accepts(self.key_bytes(), data@, sig@),
            ),
    {
        proof {
            use_type_invariant(self);
        }
        if sig.len() != SIGNATURE_LEN {
            return Err(TextError::MalformedSignature);
        }
        let signature: [u8; 64] = copy_prefix(sig);
        assert(signature@ =~= sig@);
        Ok(ed25519_verify(&self.key, data, &signature))
    }
}

/// One generated key file: its name and its raw bytes.
pub struct KeyFile {
    pub name: &'static str,
    pub bytes: Vec<u8>,
}

impl Blake3 {
    /// A fresh key: a random 32-character password of upper- and lower-case
    /// letters, digits and symbols, taken as the raw key bytes, under the
    /// name `blake3.txt`. Fails only when the random source cannot be read.
    pub fn generate() -> (r: Result<Vec<KeyFile>, TextError>)
        ensures
            r is Err ==> r == Err::<Vec<KeyFile>, TextError>(TextError::RandomUnavailable),
            r is Ok ==> {
                let files = r->Ok_0@;
                &&& files.len() == 1
                &&& files[0].name@ == "blake3.txt"@
                &&& files[0].bytes@.len() == KEY_LEN
                &&& exists|p: Seq<char>|
                    #![trigger encode_utf8(p)]
                    {
                        &&& p.len() == KEY_LEN
                        &&& is_ascii_chars(p)
                        &&& forall|i: int|
                            0 <= i < p.len() ==> selected_pool(true, true, true, true).contains(
                                #[trigger] p[i],
                            )
                        &&& files[0].bytes@ == encode_utf8(p)
                    }
            },
    {
        assert(crate::genpass::selected_classes(true, true, true, true).len() == 4);
        let password = match process_genpass(32, true, true, true, true) {
            Ok(p) => p,
            Err(_) => return Err(TextError::RandomUnavailable),
        };
        let bytes = password.as_str().as_bytes();
        proof {
            vstd::utf8::is_ascii_chars_encode_utf8(password@);
        }
        let key = vstd::slice::slice_to_vec(bytes);
        let mut r: Vec<KeyFile> = Vec::new();
        r.push(KeyFile { name: "blake3.txt", bytes: key });
        Ok(r)
    }
}

impl Ed25519Signer {
    /// A fresh key pair: a seed of 32 bytes from the operating system's random
    /// source under `ed25519.sk`, then its public key under `ed25519.pk`.
    /// Fails only when the random source cannot be read.
    pub fn generate() -> (r: Result<Vec<KeyFile>, TextError>)
        ensures
            r is Err ==> r == Err::<Vec<KeyFile>, TextError>(TextError::RandomUnavailable),
            r is Ok ==> {
                let files = r->Ok_0@;
                &&& files.len() == 2
                &&& files[0].name@ == "ed25519.sk"@
                &&& files[1].name@ == "ed25519.pk"@
                &&& files[0].bytes@.len() == KEY_LEN
                &&& files[1].bytes@.len() == KEY_LEN
                &&& files[1].bytes@ == ed25519_public_of(files[0].bytes@)
                &&& ed25519_point_valid(files[1].bytes@)
            },
    {
        let mut seed: [u8; 32] = [0u8; 32];
        match fill_random(&mut seed) {
            Ok(()) => {},
            Err(_) => return Err(TextError::RandomUnavailable),
        }
        let signer = Ed25519Signer::new(&seed);
        let public = signer.public_key();
        let mut r: Vec<KeyFile> = Vec::new();
        r.push(KeyFile { name: "ed25519.sk", bytes: vstd::slice::slice_to_vec(seed.as_slice()) });
        r.push(KeyFile { name: "ed25519.pk", bytes: vstd::slice::slice_to_vec(public.as_slice()) });
        Ok(r)
    }
}

} // verus!
