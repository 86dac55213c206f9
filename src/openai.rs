//! The transcription client: its settings, the parts of an upload request,
//! and what a response means.

use vstd::prelude::*;
use vstd::string::*;

verus! {

/// Endpoint that receives audio uploads.
pub const OPENAI_API_URL: &'static str = "https://api.openai.com/v1/audio/transcriptions";

/// Body of a successful transcription response.
#[derive(Debug, Clone, PartialEq, Eq)]
pub struct TranscriptionResponse {
    pub text: String,
}

/// Why a transcription failed.
#[derive(Debug, Clone, PartialEq, Eq)]
pub enum OpenAIError {
    NetworkError(String),
    ApiError(String),
    FileError(String),
    ParseError(String),
}

pub open spec fn error_message(e: OpenAIError) -> Seq<char> {
    match e {
        OpenAIError::NetworkError(m) => "Network error: "@ + m@,
        OpenAIError::ApiError(m) => "API error: "@ + m@,
        OpenAIError::FileError(m) => "File error: "@ + m@,
        OpenAIError::ParseError(m) => "Parse error: "@ + m@,
    }
}

impl OpenAIError {
    /// The error as a line of text: its kind, then its detail.
    pub fn message(&self) -> (r: String)
        ensures
            r@ == error_message(*self),
    {
        match self {
            OpenAIError::NetworkError(m) => String::from_str("Network error: ").concat(m.as_str()),
            OpenAIError::ApiError(m) => String::from_str("API error: ").concat(m.as_str()),
            OpenAIError::FileError(m) => String::from_str("File error: ").concat(m.as_str()),
            OpenAIError::ParseError(m) => String::from_str("Parse error: ").concat(m.as_str()),
        }
    }
}

/// Settings of the transcription client. An empty prompt means none.
pub struct OpenAIClient {
    pub api_key: String,
    pub model: String,
    pub prompt: Option<String>,
}

/// A status code in the success class.
pub open spec fn is_success_status(status: u16) -> bool {
    200 <= status <= 299
}

impl OpenAIClient {
    pub fn new(api_key: String, model: String, prompt: String) -> (r: OpenAIClient)
        ensures
            r.api_key == api_key,
            r.model == model,
            prompt@.len() == 0 ==> r.prompt is None,
            prompt@.len() != 0 ==> r.prompt == Some(prompt),
    {
        let prompt_option = if prompt.as_str().is_empty() {
            None
        } else {
            Some(prompt)
        };
        OpenAIClient { api_key, model, prompt: prompt_option }
    }

    /// Value of the `Authorization` header of a request.
    pub fn authorization_header(&self) -> (r: String)
        ensures
            r@ == "Bearer "@ + self.api_key@,
    {
        String::from_str("Bearer ").concat(self.api_key.as_str())
    }

    /// The text fields of the upload form, in order: the model, then the
    /// prompt when there is one.
    pub fn form_text_fields(&self) -> (r: Vec<(String, String)>)
        ensures
            r@.len() == if self.prompt is Some { 2int } else { 1int },
            r@[0].0@ == "model"@ && r@[0].1@ == self.model@,
            self.prompt matches Some(p) ==> r@[1].0@ == "prompt"@ && r@[1].1@ == p@,
    {
        let mut fields: Vec<(String, String)> = Vec::new();
        fields.push((String::from_str("model"), self.model.clone()));
        match &self.prompt {
            Some(p) => {
                fields.push((String::from_str("prompt"), p.clone()));
            },
            None => {},
        }
        fields
    }
}

/// File name to upload under: the file's own name when it has a readable
/// one, else `audio.wav`.
pub fn upload_file_name(file_name: Option<&str>) -> (r: String)
    ensures
        file_name matches Some(n) ==> r@ == n@,
        file_name is None ==> r@ == "audio.wav"@,
{
    match file_name {
        Some(n) => String::from_str(n),
        None => String::from_str("audio.wav"),
    }
}

/// What a response means: for a status outside the success class an API
/// error that quotes the status line and body; otherwise the transcribed
/// text, or a parse error when the body was not a transcription
/// (`parsed` holds the decoded body or the decoder's message).
pub fn transcription_result(
    status: u16,
    status_line: &str,
    body: &str,
    parsed: Result<TranscriptionResponse, String>,
) -> (r: Result<String, OpenAIError>)
    ensures
        !is_success_status(status) ==> (r matches Err(OpenAIError::ApiError(m)) && m@
            == "API returned status "@ + status_line@ + ": "@ + body@),
        is_success_status(status) ==> match parsed {
            Ok(t) => r == Ok::<String, OpenAIError>(t.text),
            Err(e) => (r matches Err(OpenAIError::ParseError(m)) && m@ == "Failed to parse response: "@
                + e@ + ". Response was: "@ + body@),
        },
{
    if status < 200 || status > 299 {
        let m = String::from_str("API returned status ").concat(status_line).concat(": ").concat(body);
        return Err(OpenAIError::ApiError(m));
    }
    match parsed {
        Ok(t) => Ok(t.text),
        Err(e) => {
            let m = String::from_str("Failed to parse response: ").concat(e.as_str()).concat(
                ". Response was: ",
            ).concat(body);
            Err(OpenAIError::ParseError(m))
        },
    }
}

} // verus!
