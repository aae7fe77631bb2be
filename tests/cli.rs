use intj::ai::{
    first_response_text, gemini_api_url, resolve_api_key, user_contents, AiError,
    GEMINI_API_BASE_URL,
};
use intj::commands::{sign_command, verify_command, verify_message};
use intj::encoding::{decode_signature, encode_signature};
use intj::format::{parse_ai_output_format, parse_output_format};
use intj::genpass::GenPassError;
use intj::http::{file_response, FileRead};
use intj::paths::OutputPathError;
use intj::{
    process_decode, process_encode, process_genpass, verify_input_file, verify_output_path,
    verify_path, AiOutputFormat, Candidate, CsvOpts, GeminiResponse, OutputFormat,
    ResponseContent, ResponsePart, TextError, TextSignFormat,
};

#[test]
fn test_verify_input_file() {
    assert_eq!(verify_input_file("-"), Ok("-".into()));
    assert_eq!(verify_input_file("*"), Err("File does not exists"));
    assert_eq!(verify_input_file("src/lib.rs"), Ok("src/lib.rs".into()));
    assert_eq!(verify_input_file("no-exist"), Err("File does not exists"));
}

#[test]
fn test_gemini_api_url() {
    let model = "gemini-pro";
    let expected_url = gemini_api_url(model);
    assert_eq!(
        expected_url,
        "https://generativelanguage.googleapis.com/v1beta/models/gemini-pro:generateContent"
    );
    assert_eq!(format!("{}/{}:generateContent", GEMINI_API_BASE_URL, model), expected_url);
}

#[test]
fn directories_and_output_paths() {
    assert_eq!(verify_path("."), Ok(".".to_string()));
    assert_eq!(verify_path("src"), Ok("src".to_string()));
    assert_eq!(verify_path("src/lib.rs"), Err("File does not exists"));
    assert_eq!(verify_path("no-exist"), Err("File does not exists"));
    assert_eq!(verify_output_path("out.txt"), Ok("out.txt".to_string()));
    assert_eq!(verify_output_path("src/out.txt"), Ok("src/out.txt".to_string()));
    assert_eq!(verify_output_path("no-such-dir/out.txt"), Err(OutputPathError::ParentMissing));
    assert_eq!(
        verify_output_path("src/lib.rs/out.txt"),
        Err(OutputPathError::ParentNotDirectory)
    );
}

#[test]
fn password_has_one_character_of_each_class_first() {
    let p = process_genpass(32, true, true, true, true).unwrap();
    let b = p.as_bytes();
    assert_eq!(b.len(), 32);
    assert!(b[0].is_ascii_uppercase());
    assert!(b[1].is_ascii_lowercase());
    assert!(b[2].is_ascii_digit());
    assert!(b"!@#$%&^*_".contains(&b[3]));
    assert!(!p.contains(['I', 'O', 'l', 'o', '0']));
}

#[test]
fn password_from_digits_only() {
    let p = process_genpass(12, false, false, true, false).unwrap();
    assert_eq!(p.len(), 12);
    assert!(p.bytes().all(|c| (b'1'..=b'9').contains(&c)));
}

#[test]
fn password_generation_errors() {
    assert_eq!(process_genpass(3, true, true, true, true), Err(GenPassError::TooShort));
    assert_eq!(process_genpass(8, false, false, false, false), Err(GenPassError::NoCharacterClass));
    assert_eq!(process_genpass(0, false, false, false, false), Ok(String::new()));
    assert_eq!(process_genpass(4, true, true, true, true).map(|p| p.len()), Ok(4));
}

#[test]
fn test_process_encode() {
    let input = b"[package]\nname = \"intj\"\nedition = \"2021\"\n";
    let encoded = process_encode(input);
    assert!(!encoded.is_empty());
    assert_eq!(process_decode(&encoded), Ok(input.to_vec()));
}

#[test]
fn test_process_decode() {
    let input = "W3BhY2thZ2VdCm5hbWUgPSAiaW50aiIK\n";
    assert!(process_decode(input).is_ok());
    assert_eq!(process_decode(input), Ok(b"[package]\nname = \"intj\"\n".to_vec()));
}

#[test]
fn base64_encode_and_decode() {
    assert_eq!(process_encode(b"hello"), "aGVsbG8=");
    assert_eq!(process_encode(&[0xfb, 0xff]), "-_8=");
    assert_eq!(process_decode("  aGVsbG8=\n"), Ok(b"hello".to_vec()));
    assert!(process_decode("a*b").is_err());
    assert_eq!(encode_signature(&[0xfb, 0xff]), "-_8");
    assert_eq!(decode_signature("-_8"), Ok(vec![0xfb, 0xff]));
    assert!(decode_signature("-_8=").is_err());
}

#[test]
fn sign_and_verify_commands() {
    let key = b"kN7#xQ2@bV9!mR4*tY6_wE3&pZ8^sH5%";
    let text = sign_command(b"hello", key, TextSignFormat::Blake3).unwrap();
    assert_eq!(text.len(), 43);
    assert_eq!(verify_command(b"hello", key, &text, TextSignFormat::Blake3), Ok(true));
    assert_eq!(verify_command(b"hellO", key, &text, TextSignFormat::Blake3), Ok(false));
    assert_eq!(
        verify_command(b"hello", key, "***", TextSignFormat::Blake3),
        Err(TextError::InvalidBase64)
    );
    assert_eq!(sign_command(b"hello", &key[..8], TextSignFormat::Blake3), Err(TextError::KeyLength));
    assert_eq!(verify_message(true), "Signature verified");
    assert_eq!(verify_message(false), "Signature not verified");
}

#[test]
fn output_formats() {
    assert_eq!(parse_output_format("json"), Ok(OutputFormat::Json));
    assert_eq!(parse_output_format("yaml"), Ok(OutputFormat::Yaml));
    assert_eq!(parse_output_format("toml"), Ok(OutputFormat::Toml));
    assert!(parse_output_format("xml").is_err());
    assert_eq!(parse_ai_output_format("JSON"), Ok(AiOutputFormat::Json));
    assert_eq!(parse_ai_output_format("Text"), Ok(AiOutputFormat::Text));
    assert!(parse_ai_output_format("html").is_err());
    assert_eq!(OutputFormat::Yaml.as_str(), "yaml");
    assert_eq!(AiOutputFormat::Json.as_str(), "json");
}

#[test]
fn csv_output_name() {
    let mut opts = CsvOpts {
        input: "in.csv".to_string(),
        output: None,
        format: OutputFormat::Toml,
        delimiter: ',',
        header: true,
    };
    assert_eq!(opts.output_name(), "output.toml");
    opts.output = Some("x.json".to_string());
    assert_eq!(opts.output_name(), "x.json");
}

#[test]
fn chat_request_and_reply() {
    let contents = user_contents("hi");
    assert_eq!(contents.len(), 1);
    assert_eq!(contents[0].parts[0].text, "hi");
    assert_eq!(
        resolve_api_key(Some("a".to_string()), Some("b".to_string())),
        Ok("a".to_string())
    );
    assert_eq!(resolve_api_key(None, Some("b".to_string())), Ok("b".to_string()));
    assert_eq!(resolve_api_key(None, None), Err(AiError::MissingApiKey));
    assert!(AiError::MissingApiKey.message().starts_with("API key not provided."));
    assert_eq!(AiError::NoCandidates.message(), "No candidates in API response");
    assert_eq!(TextError::KeyLength.message(), "key is shorter than 32 bytes");

    let empty = GeminiResponse { candidates: vec![] };
    assert_eq!(first_response_text(&empty), Err(AiError::NoCandidates));
    let no_parts = GeminiResponse {
        candidates: vec![Candidate { content: ResponseContent { parts: vec![] } }],
    };
    assert_eq!(first_response_text(&no_parts), Err(AiError::NoContent));
    let reply = GeminiResponse {
        candidates: vec![Candidate {
            content: ResponseContent {
                parts: vec![
                    ResponsePart { text: "first".to_string() },
                    ResponsePart { text: "second".to_string() },
                ],
            },
        }],
    };
    assert_eq!(first_response_text(&reply), Ok("first".to_string()));
}

#[test]
fn file_server_responses() {
    assert_eq!(file_response("./a.txt", FileRead::Missing), (404, "File ./a.txt not found".to_string()));
    assert_eq!(file_response("a", FileRead::Read("body".to_string())), (200, "body".to_string()));
    assert_eq!(file_response("a", FileRead::Failed("denied".to_string())), (500, "denied".to_string()));
}
