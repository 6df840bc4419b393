//! The transcription exchange: the request to send, and the interpretation of
//! the service's answer. Sending and receiving happen elsewhere; this module
//! decides what goes out and what an answer means.
use vstd::prelude::*;

verus! {

/// What a multipart form part carries.
#[derive(Clone, Debug, PartialEq, Eq)]
pub enum PartContent {
    /// A file upload with its file name and MIME type.
    File { file_name: String, mime: String, bytes: Vec<u8> },
    /// A plain text field.
    Text(String),
}

/// One named part of a multipart form body.
#[derive(Clone, Debug, PartialEq, Eq)]
pub struct FormPart {
    pub name: String,
    pub content: PartContent,
}

/// An authenticated multipart POST, ready to be sent.
#[derive(Clone, Debug, PartialEq, Eq)]
pub struct UploadRequest {
    pub url: String,
    /// Value of the `Authorization` header.
    pub authorization: String,
    /// The form's parts, in order.
    pub parts: Vec<FormPart>,
}

/// Why a transcription failed.
#[derive(Clone, Debug, PartialEq, Eq)]
pub enum TranscribeError {
    /// The service could not be reached; the transport's own message.
    Transport(String),
    /// The service answered with a status outside 200..=299.
    Server { status: u16, body: String },
    /// The answer is not JSON, or has no string `text` field.
    Parse,
}

/// What to do with the outcome of a transcription.
#[derive(Clone, Debug, PartialEq, Eq)]
pub enum Delivery {
    /// Type this text at the cursor.
    Type(String),
    /// The service heard no speech: a success with nothing to type.
    NoSpeech,
    /// Report this failure; nothing is typed.
    Failed(TranscribeError),
}

pub open spec fn is_file_part(
    p: FormPart,
    name: Seq<char>,
    file_name: Seq<char>,
    mime: Seq<char>,
    bytes: Seq<u8>,
) -> bool {
    &&& p.name@ == name
    &&& match p.content {
        PartContent::File { file_name: f, mime: m, bytes: b } => f@ == file_name && m@ == mime
            && b@ == bytes,
        PartContent::Text(_) => false,
    }
}

pub open spec fn is_text_part(p: FormPart, name: Seq<char>, value: Seq<char>) -> bool {
    &&& p.name@ == name
    &&& match p.content {
        PartContent::Text(v) => v@ == value,
        PartContent::File { .. } => false,
    }
}

/// Builds the transcription request: a POST to `{api_url}/v1/transcribe` with a
/// bearer token, whose form has exactly two parts: the audio as a file part
/// `file` (`audio.wav`, `audio/wav`), then the text part `language`.
pub fn build_request(api_url: &str, api_token: &str, audio_data: Vec<u8>, language: &str) -> (r:
    UploadRequest)
    ensures
        r.url@ == api_url@ + "/v1/transcribe"@,
        r.authorization@ == "Bearer "@ + api_token@,
        r.parts@.len() == 2,
        is_file_part(r.parts@[0], "file"@, "audio.wav"@, "audio/wav"@, audio_data@),
        is_text_part(r.parts@[1], "language"@, language@),
{
    let url = String::from_str(api_url).concat("/v1/transcribe");
    let authorization = String::from_str("Bearer ").concat(api_token);
    let file = FormPart {
        name: String::from_str("file"),
        content: PartContent::File {
            file_name: String::from_str("audio.wav"),
            mime: String::from_str("audio/wav"),
            bytes: audio_data,
        },
    };
    let lang = FormPart {
        name: String::from_str("language"),
        content: PartContent::Text(String::from_str(language)),
    };
    let mut parts: Vec<FormPart> = Vec::new();
    parts.push(file);
    parts.push(lang);
    UploadRequest { url, authorization, parts }
}

/// A status in 200..=299.
pub open spec fn is_success(status: u16) -> bool {
    200 <= status <= 299
}

/// The string field `text` of the JSON value that `body` parses to; `None`
/// when `body` is not JSON or has no such string field.
pub uninterp spec fn json_text(body: Seq<char>) -> Option<Seq<char>>;

pub open spec fn opt_view(o: Option<String>) -> Option<Seq<char>> {
    match o {
        Some(s) => Some(s@),
        None => None,
    }
}

/// Relies on serde_json::from_str (into `serde_json::Value`) and its map's `get`:
/// reads the string member `text` of a JSON object; any other answer is `None`.
#[verifier::external_body]
fn parse_text_field(body: &str) -> (r: Option<String>)
    ensures
        opt_view(r) == json_text(body@),
{
    match serde_json::from_str::<serde_json::Value>(body) {
        Ok(serde_json::Value::Object(m)) => match m.get("text") {
            Some(serde_json::Value::String(s)) => Some(s.clone()),
            _ => None,
        },
        _ => None,
    }
}

/// The result carried by a successful answer's `text` field, if it had one.
pub fn text_result(field: Option<String>) -> (r: Result<String, TranscribeError>)
    ensures
        field is None ==> r == Err::<String, TranscribeError>(TranscribeError::Parse),
        field is Some ==> r == Ok::<String, TranscribeError>(field->0),
{
    match field {
        Some(t) => Ok(t),
        None => Err(TranscribeError::Parse),
    }
}

/// What an answer with `status` and `body` means: a status outside 200..=299
/// is a server error carrying both verbatim; otherwise the body's `text`
/// field, or a parse error when it has none.
pub open spec fn answer_means(status: u16, body: Seq<char>, r: Result<String, TranscribeError>) -> bool {
    if !is_success(status) {
        match r {
            Err(TranscribeError::Server { status: s, body: b }) => s == status && b@ == body,
            _ => false,
        }
    } else {
        match (json_text(body), r) {
            (Some(t), Ok(x)) => x@ == t,
            (None, Err(TranscribeError::Parse)) => true,
            _ => false,
        }
    }
}

/// Interprets the service's answer.
pub fn interpret_response(status: u16, body: &str) -> (r: Result<String, TranscribeError>)
    ensures
        answer_means(status, body@, r),
{
    if status < 200 || status > 299 {
        return Err(TranscribeError::Server { status, body: String::from_str(body) });
    }
    text_result(parse_text_field(body))
}

/// Turns a transcription's result into the action to take: non-empty text is
/// typed, empty text means no speech (a success), an error is reported.
pub fn deliver(result: Result<String, TranscribeError>) -> (r: Delivery)
    ensures
        match result {
            Ok(t) => if t@.len() == 0 {
                r == Delivery::NoSpeech
            } else {
                r == Delivery::Type(t)
            },
            Err(e) => r == Delivery::Failed(e),
        },
{
    match result {
        Ok(t) => if t.as_str().is_empty() {
            Delivery::NoSpeech
        } else {
            Delivery::Type(t)
        },
        Err(e) => Delivery::Failed(e),
    }
}

/// The decimal digit `d` (0..=9) as a character.
pub open spec fn digit_char(d: int) -> char {
    if d == 0 { '0' }
    else if d == 1 { '1' }
    else if d == 2 { '2' }
    else if d == 3 { '3' }
    else if d == 4 { '4' }
    else if d == 5 { '5' }
    else if d == 6 { '6' }
    else if d == 7 { '7' }
    else if d == 8 { '8' }
    else { '9' }
}

/// `n` in decimal, without leading zeros.
pub open spec fn decimal(n: nat) -> Seq<char>
    decreases n,
{
    if n < 10 {
        seq![digit_char(n as int)]
    } else {
        decimal(n / 10) + seq![digit_char((n % 10) as int)]
    }
}

/// The message shown to the operator for a failure.
pub open spec fn error_message(e: TranscribeError) -> Seq<char> {
    match e {
        TranscribeError::Transport(m) => "Request failed: "@ + m@,
        TranscribeError::Server { status, body } => "Server error "@ + decimal(status as nat)
            + ": "@ + body@,
        TranscribeError::Parse => "Failed to parse response: no string text field"@,
    }
}

fn digit_str(d: u16) -> (r: &'static str)
    requires
        d < 10,
    ensures
        r@ == seq![digit_char(d as int)],
{
    proof {
        reveal_strlit("0");
        reveal_strlit("1");
        reveal_strlit("2");
        reveal_strlit("3");
        reveal_strlit("4");
        reveal_strlit("5");
        reveal_strlit("6");
        reveal_strlit("7");
        reveal_strlit("8");
        reveal_strlit("9");
    }
    let r = match d {
        0 => "0",
        1 => "1",
        2 => "2",
        3 => "3",
        4 => "4",
        5 => "5",
        6 => "6",
        7 => "7",
        8 => "8",
        _ => "9",
    };
    assert(r@ =~= seq![digit_char(d as int)]);
    r
}

fn append_decimal(out: &mut String, n: u16)
    ensures
        final(out)@ == old(out)@ + decimal(n as nat),
    decreases n,
{
    if n >= 10 {
        append_decimal(out, n / 10);
    }
    out.append(digit_str(n % 10));
    assert(final(out)@ =~= old(out)@ + decimal(n as nat));
}

impl TranscribeError {
    /// The failure as a line for the operator; a server error shows its
    /// status code and body verbatim.
    pub fn message(&self) -> (r: String)
        ensures
            r@ == error_message(*self),
    {
        match self {
            TranscribeError::Transport(m) => String::from_str("Request failed: ").concat(
                m.as_str(),
            ),
            TranscribeError::Server { status, body } => {
                let mut r = String::from_str("Server error ");
                append_decimal(&mut r, *status);
                r.append(": ");
                r.append(body.as_str());
                r
            },
            TranscribeError::Parse => String::from_str(
                "Failed to parse response: no string text field",
            ),
        }
    }
}

} // verus!
