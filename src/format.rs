//! The enumerated tags that select an algorithm or an output format, and
//! their text forms.

use vstd::prelude::*;
use vstd::string::StrSliceExecFns;

verus! {

/// Text that names no known format.
#[derive(Debug, Clone, Copy, PartialEq, Eq, Structural)]
pub struct InvalidFormat;

/// Whether two strings hold the same characters.
pub fn text_eq(a: &str, b: &str) -> (r: bool)
    ensures
        r == (a@ == b@),
{
    let n = a.unicode_len();
    if n != b.unicode_len() {
        return false;
    }
    let mut i: usize = 0;
    while i < n
        invariant
            n == a@.len(),
            n == b@.len(),
            i <= n,
            forall|j: int| 0 <= j < i ==> a@[j] == b@[j],
        decreases n - i,
    {
        if a.get_char(i) != b.get_char(i) {
            return false;
        }
        i = i + 1;
    }
    assert(a@ =~= b@);
    true
}

/// The signature algorithms: a keyed Blake3 hash, or Ed25519.
#[derive(Debug, Clone, Copy, PartialEq, Eq, Structural)]
pub enum TextSignFormat {
    Blake3,
    Ed25519,
}

impl TextSignFormat {
    /// The tag's text form.
    pub open spec fn spec_name(self) -> Seq<char> {
        match self {
            TextSignFormat::Blake3 => "blake3"@,
            TextSignFormat::Ed25519 => "ed25519"@,
        }
    }

    /// The tag's text form.
    pub fn as_str(&self) -> (r: &'static str)
        ensures
            r@ == self.spec_name(),
    {
        match self {
            TextSignFormat::Blake3 => "blake3",
            TextSignFormat::Ed25519 => "ed25519",
        }
    }
}

/// Reads an algorithm tag: `blake3` or `ed25519`, exactly.
pub fn parse_format(format: &str) -> (r: Result<TextSignFormat, InvalidFormat>)
    ensures
        format@ == "blake3"@ ==> r == Ok::<TextSignFormat, InvalidFormat>(TextSignFormat::Blake3),
        format@ == "ed25519"@ ==> r == Ok::<TextSignFormat, InvalidFormat>(TextSignFormat::Ed25519),
        format@ != "blake3"@ && format@ != "ed25519"@ ==> r == Err::<TextSignFormat, InvalidFormat>(InvalidFormat),
{
    proof {
        reveal_strlit("blake3");
        reveal_strlit("ed25519");
        assert("blake3"@[0] != "ed25519"@[0]);
    }
    if text_eq(format, "blake3") {
        Ok(TextSignFormat::Blake3)
    } else if text_eq(format, "ed25519") {
        Ok(TextSignFormat::Ed25519)
    } else {
        Err(InvalidFormat)
    }
}

/// The formats a CSV file can be converted to.
#[derive(Debug, Clone, Copy, PartialEq, Eq, Structural)]
pub enum OutputFormat {
    Json,
    Yaml,
    Toml,
}

impl OutputFormat {
    /// The format's text form, also the extension of its files.
    pub open spec fn spec_name(self) -> Seq<char> {
        match self {
            OutputFormat::Json => "json"@,
            OutputFormat::Yaml => "yaml"@,
            OutputFormat::Toml => "toml"@,
        }
    }

    /// The format's text form, also the extension of its files.
    pub fn as_str(&self) -> (r: &'static str)
        ensures
            r@ == self.spec_name(),
    {
        match self {
            OutputFormat::Json => "json",
            OutputFormat::Yaml => "yaml",
            OutputFormat::Toml => "toml",
        }
    }
}

/// Reads an output format: `json`, `yaml` or `toml`, exactly.
pub fn parse_output_format(format: &str) -> (r: Result<OutputFormat, InvalidFormat>)
    ensures
        format@ == "json"@ ==> r == Ok::<OutputFormat, InvalidFormat>(OutputFormat::Json),
        format@ == "yaml"@ ==> r == Ok::<OutputFormat, InvalidFormat>(OutputFormat::Yaml),
        format@ == "toml"@ ==> r == Ok::<OutputFormat, InvalidFormat>(OutputFormat::Toml),
        format@ != "json"@ && format@ != "yaml"@ && format@ != "toml"@ ==> r == Err::<
            OutputFormat,
            InvalidFormat,
        >(InvalidFormat),
{
    proof {
        reveal_strlit("json");
        reveal_strlit("yaml");
        reveal_strlit("toml");
        assert("json"@[0] != "yaml"@[0] && "json"@[0] != "toml"@[0] && "yaml"@[0] != "toml"@[0]);
    }
    if text_eq(format, "json") {
        Ok(OutputFormat::Json)
    } else if text_eq(format, "yaml") {
        Ok(OutputFormat::Yaml)
    } else if text_eq(format, "toml") {
        Ok(OutputFormat::Toml)
    } else {
        Err(InvalidFormat)
    }
}

/// How a chat reply is printed.
#[derive(Debug, Clone, Copy, PartialEq, Eq, Structural)]
pub enum AiOutputFormat {
    Text,
    Json,
}

/// The characters of `s` in lower case.
pub uninterp spec fn lowercase_of(s: Seq<char>) -> Seq<char>;

/// Relies on `str::to_lowercase`: the lower-case form of a string, which
/// depends on its characters alone.
#[verifier::external_body]
fn lowercase(s: &str) -> (r: String)
    ensures
        r@ == lowercase_of(s@),
{
    s.to_lowercase()
}

impl AiOutputFormat {
    /// The format's text form.
    pub open spec fn spec_name(self) -> Seq<char> {
        match self {
            AiOutputFormat::Text => "text"@,
            AiOutputFormat::Json => "json"@,
        }
    }

    /// The format's text form.
    pub fn as_str(&self) -> (r: &'static str)
        ensures
            r@ == self.spec_name(),
    {
        match self {
            AiOutputFormat::Text => "text",
            AiOutputFormat::Json => "json",
        }
    }
}

/// Reads an already lower-cased output format name: `text` or `json`.
pub fn ai_output_format_from_lower(lower: &str) -> (r: Result<AiOutputFormat, InvalidFormat>)
    ensures
        lower@ == "text"@ ==> r == Ok::<AiOutputFormat, InvalidFormat>(AiOutputFormat::Text),
        lower@ == "json"@ ==> r == Ok::<AiOutputFormat, InvalidFormat>(AiOutputFormat::Json),
        lower@ != "text"@ && lower@ != "json"@ ==> r == Err::<AiOutputFormat, InvalidFormat>(
            InvalidFormat,
        ),
{
    proof {
        reveal_strlit("text");
        reveal_strlit("json");
        assert("text"@[0] != "json"@[0]);
    }
    if text_eq(lower, "text") {
        Ok(AiOutputFormat::Text)
    } else if text_eq(lower, "json") {
        Ok(AiOutputFormat::Json)
    } else {
        Err(InvalidFormat)
    }
}

/// Reads an output format name in any case: `text` or `json`.
pub fn parse_ai_output_format(s: &str) -> (r: Result<AiOutputFormat, InvalidFormat>)
    ensures
        lowercase_of(s@) == "text"@ ==> r == Ok::<AiOutputFormat, InvalidFormat>(AiOutputFormat::Text),
        lowercase_of(s@) == "json"@ ==> r == Ok::<AiOutputFormat, InvalidFormat>(AiOutputFormat::Json),
        lowercase_of(s@) != "text"@ && lowercase_of(s@) != "json"@ ==> r == Err::<
            AiOutputFormat,
            InvalidFormat,
        >(InvalidFormat),
{
    let lower = lowercase(s);
    ai_output_format_from_lower(lower.as_str())
}

} // verus!
