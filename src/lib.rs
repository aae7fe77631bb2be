//! Text signing, verification, key generation and authenticated encryption,
//! with the surrounding command-line helpers.

pub mod aead;
pub mod ai;
pub mod commands;
pub mod encoding;
pub mod error;
pub mod format;
pub mod genpass;
pub mod http;
pub mod keys;
pub mod opts;
pub mod paths;
pub mod signing;

pub use aead::{decrypt, decrypt_text, encrypt, encrypt_text};
pub use ai::{Candidate, Content, GeminiResponse, Part, ResponseContent, ResponsePart};
pub use encoding::{process_decode, process_encode};
pub use error::TextError;
pub use format::{parse_format, AiOutputFormat, InvalidFormat, OutputFormat, TextSignFormat};
pub use genpass::process_genpass;
pub use keys::{Blake3, Ed25519Signer, Ed25519Verifier, KeyFile};
pub use opts::{
    Base64DecodeOpts, Base64EncodeOpts, Base64SubCommand, CsvOpts, DecryptOpts, EncryptOpts,
    GenPassOpts, HttpServeOpts, HttpSubCommand, Opts, SubCommand, TextKeyGenerateOpts,
    TextSignOpts, TextSubCommand, TextVerifyOpts,
};
pub use paths::{verify_input_file, verify_output_path, verify_path};
pub use signing::{process_generate, process_sign, process_verify};
