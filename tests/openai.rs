use winh::args::api_key_from_args;
use winh::openai::{transcription_result, upload_file_name, OpenAIClient, OpenAIError, TranscriptionResponse};

#[test]
fn test_client_creation() {
    let client = OpenAIClient::new(
        "test_key".to_string(),
        "whisper-1".to_string(),
        "test prompt".to_string(),
    );
    assert_eq!(client.api_key, "test_key");
    assert_eq!(client.model, "whisper-1");
    assert_eq!(client.prompt, Some("test prompt".to_string()));
}

#[test]
fn test_client_creation_with_empty_prompt() {
    let client = OpenAIClient::new(
        "test_key".to_string(),
        "whisper-1".to_string(),
        "".to_string(),
    );
    assert_eq!(client.prompt, None);
}

#[test]
fn authorization_header_carries_the_key() {
    let client = OpenAIClient::new("k123".to_string(), "whisper-1".to_string(), "".to_string());
    assert_eq!(client.authorization_header(), "Bearer k123");
}

#[test]
fn form_fields_include_prompt_only_when_set() {
    let with = OpenAIClient::new("k".to_string(), "m".to_string(), "p".to_string());
    assert_eq!(
        with.form_text_fields(),
        vec![("model".to_string(), "m".to_string()), ("prompt".to_string(), "p".to_string())]
    );
    let without = OpenAIClient::new("k".to_string(), "m".to_string(), "".to_string());
    assert_eq!(without.form_text_fields(), vec![("model".to_string(), "m".to_string())]);
}

#[test]
fn upload_name_defaults_to_audio_wav() {
    assert_eq!(upload_file_name(Some("rec_1.wav")), "rec_1.wav");
    assert_eq!(upload_file_name(None), "audio.wav");
}

#[test]
fn success_status_gives_the_text() {
    let parsed = Ok(TranscriptionResponse { text: "hello".to_string() });
    assert_eq!(transcription_result(200, "200 OK", "{\"text\":\"hello\"}", parsed), Ok("hello".to_string()));
}

#[test]
fn failure_status_gives_api_error() {
    let parsed = Ok(TranscriptionResponse { text: "ignored".to_string() });
    let r = transcription_result(401, "401 Unauthorized", "bad key", parsed);
    assert_eq!(r, Err(OpenAIError::ApiError("API returned status 401 Unauthorized: bad key".to_string())));
}

#[test]
fn unparsable_body_gives_parse_error() {
    let r = transcription_result(200, "200 OK", "oops", Err("expected value".to_string()));
    assert_eq!(
        r,
        Err(OpenAIError::ParseError("Failed to parse response: expected value. Response was: oops".to_string()))
    );
}

#[test]
fn error_messages_name_their_kind() {
    assert_eq!(OpenAIError::NetworkError("x".to_string()).message(), "Network error: x");
    assert_eq!(OpenAIError::ApiError("x".to_string()).message(), "API error: x");
    assert_eq!(OpenAIError::FileError("x".to_string()).message(), "File error: x");
    assert_eq!(OpenAIError::ParseError("x".to_string()).message(), "Parse error: x");
}

#[test]
fn last_api_key_argument_wins() {
    let args = vec![
        "winh".to_string(),
        "--api-key=first".to_string(),
        "--verbose".to_string(),
        "OPENAI_API_KEY=second".to_string(),
    ];
    assert_eq!(api_key_from_args(&args), Some("second".to_string()));
    let none = vec!["winh".to_string(), "--api-key".to_string()];
    assert_eq!(api_key_from_args(&none), None);
    let empty_key = vec!["--api-key=".to_string()];
    assert_eq!(api_key_from_args(&empty_key), Some("".to_string()));
}
