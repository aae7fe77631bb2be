//! The options of each command, as plain values.

use crate::format::{OutputFormat, TextSignFormat};
use vstd::prelude::*;
use vstd::string::StringExecFns;

verus! {

/// Options of `csv`: convert a CSV file to another format.
pub struct CsvOpts {
    pub input: String,
    pub output: Option<String>,
    pub format: OutputFormat,
    pub delimiter: char,
    pub header: bool,
}

impl CsvOpts {
    /// The file to write: the one given, else `output.` and the format's
    /// extension.
    pub fn output_name(&self) -> (r: String)
        ensures
            self.output is Some ==> r@ == self.output->0@,
            self.output is None ==> r@ == "output."@ + self.format.spec_name(),
    {
        match &self.output {
            Some(o) => o.clone(),
            None => {
                let mut name = String::from_str("output.");
                name.append(self.format.as_str());
                name
            },
        }
    }
}

/// Options of `genpass`: which character classes to use, and the length.
pub struct GenPassOpts {
    pub length: u8,
    pub no_uppercase: bool,
    pub no_lowercase: bool,
    pub no_number: bool,
    pub no_symbol: bool,
}

/// Options of `base64 encode`.
pub struct Base64EncodeOpts {
    pub input: String,
}

/// Options of `base64 decode`.
pub struct Base64DecodeOpts {
    pub input: String,
}

/// The `base64` commands.
pub enum Base64SubCommand {
    Encode(Base64EncodeOpts),
    Decode(Base64DecodeOpts),
}

/// Options of `http serve`.
pub struct HttpServeOpts {
    pub dir: String,
    pub port: u16,
}

/// The `http` commands.
pub enum HttpSubCommand {
    Serve(HttpServeOpts),
}

/// Options of `text sign`.
pub struct TextSignOpts {
    pub input: String,
    pub key: String,
    pub format: TextSignFormat,
}

/// Options of `text verify`.
pub struct TextVerifyOpts {
    pub input: String,
    pub key: String,
    pub format: TextSignFormat,
    pub sig: String,
}

/// Options of `text generate`.
pub struct TextKeyGenerateOpts {
    pub format: TextSignFormat,
    pub output_dir: String,
}

/// Options of `text encrypt`.
pub struct EncryptOpts {
    pub key: String,
    pub input: String,
    pub output: Option<String>,
}

/// Options of `text decrypt`.
pub struct DecryptOpts {
    pub key: String,
    pub input: String,
    pub output: Option<String>,
}

/// The `text` commands.
pub enum TextSubCommand {
    Sign(TextSignOpts),
    Verify(TextVerifyOpts),
    Generate(TextKeyGenerateOpts),
    Encrypt(EncryptOpts),
    Decrypt(DecryptOpts),
}

/// The top-level commands.
pub enum SubCommand {
    Csv(CsvOpts),
    GenPass(GenPassOpts),
    Base64(Base64SubCommand),
    Text(TextSubCommand),
    Http(HttpSubCommand),
}

/// The parsed command line.
pub struct Opts {
    pub cmd: SubCommand,
}

} // verus!
