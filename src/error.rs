//! The errors of signing, verification and authenticated encryption.

use vstd::prelude::*;

verus! {

/// Why a signing, verification, encryption or decryption call failed.
#[derive(Debug, Clone, Copy, PartialEq, Eq, Structural)]
pub enum TextError {
    /// Key or seed bytes are shorter than the algorithm needs.
    KeyLength,
    /// Bytes given as an Ed25519 public key do not decode to a curve point.
    InvalidPoint,
    /// A signature handed to Ed25519 verification is not exactly 64 bytes.
    MalformedSignature,
    /// A symmetric cipher key is not exactly 32 bytes.
    InvalidKeyLength,
    /// Ciphertext too short to hold its nonce.
    MalformedCiphertext,
    /// The authentication tag did not verify: tampered input or wrong key.
    AuthenticationFailed,
    /// Decrypted bytes are not valid UTF-8.
    InvalidEncoding,
    /// The operating system's random source could not be read.
    RandomUnavailable,
    /// The plaintext is longer than the cipher can process under one nonce.
    PlaintextTooLong,
    /// Text given as base64 does not decode.
    InvalidBase64,
    /// Input that should be text is not valid UTF-8.
    InvalidInput,
}

impl TextError {
    /// The text that `message` gives.
    pub open spec fn spec_message(self) -> Seq<char> {
        match self {
            TextError::KeyLength => "key is shorter than 32 bytes"@,
            TextError::InvalidPoint => "public key is not a valid Ed25519 point"@,
            TextError::MalformedSignature => "signature must be exactly 64 bytes"@,
            TextError::InvalidKeyLength => "key must be exactly 32 bytes"@,
            TextError::MalformedCiphertext => "ciphertext is too short"@,
            TextError::AuthenticationFailed => "authentication failed"@,
            TextError::InvalidEncoding => "decrypted text is not valid UTF-8"@,
            TextError::RandomUnavailable => "random source unavailable"@,
            TextError::PlaintextTooLong => "plaintext is too long"@,
            TextError::InvalidBase64 => "invalid base64 input"@,
            TextError::InvalidInput => "input is not valid UTF-8 text"@,
        }
    }

    /// A short description of the error.
    pub fn message(&self) -> (r: &'static str)
        ensures
            r@ == self.spec_message(),
    {
        match self {
            TextError::KeyLength => "key is shorter than 32 bytes",
            TextError::InvalidPoint => "public key is not a valid Ed25519 point",
            TextError::MalformedSignature => "signature must be exactly 64 bytes",
            TextError::InvalidKeyLength => "key must be exactly 32 bytes",
            TextError::MalformedCiphertext => "ciphertext is too short",
            TextError::AuthenticationFailed => "authentication failed",
            TextError::InvalidEncoding => "decrypted text is not valid UTF-8",
            TextError::RandomUnavailable => "random source unavailable",
            TextError::PlaintextTooLong => "plaintext is too long",
            TextError::InvalidBase64 => "invalid base64 input",
            TextError::InvalidInput => "input is not valid UTF-8 text",
        }
    }
}

} // verus!
