use voice_type::transcription::{
    build_request, deliver, interpret_response, text_result, Delivery, FormPart, PartContent,
    TranscribeError,
};

#[test]
fn request_has_one_file_part_and_one_language_part() {
    let req = build_request("https://stt.example", "tok123", vec![1, 2, 3], "de");
    assert_eq!(req.url, "https://stt.example/v1/transcribe");
    assert_eq!(req.authorization, "Bearer tok123");
    assert_eq!(
        req.parts,
        vec![
            FormPart {
                name: "file".to_string(),
                content: PartContent::File {
                    file_name: "audio.wav".to_string(),
                    mime: "audio/wav".to_string(),
                    bytes: vec![1, 2, 3],
                },
            },
            FormPart { name: "language".to_string(), content: PartContent::Text("de".to_string()) },
        ]
    );
}

#[test]
fn request_with_empty_audio_keeps_shape() {
    let req = build_request("", "", Vec::new(), "en");
    assert_eq!(req.url, "/v1/transcribe");
    assert_eq!(req.parts.len(), 2);
    assert_eq!(req.parts[1].content, PartContent::Text("en".to_string()));
}

#[test]
fn text_is_returned_exactly() {
    assert_eq!(interpret_response(200, r#"{"text": "hello world"}"#), Ok("hello world".to_string()));
}

#[test]
fn empty_text_is_success_without_typing() {
    let r = interpret_response(200, r#"{"text": ""}"#);
    assert_eq!(r, Ok(String::new()));
    assert_eq!(deliver(r), Delivery::NoSpeech);
}

#[test]
fn non_empty_text_is_typed() {
    assert_eq!(
        deliver(interpret_response(201, r#"{"text": "hi", "lang": "en"}"#)),
        Delivery::Type("hi".to_string())
    );
}

#[test]
fn server_error_message_has_status_and_body() {
    let r = interpret_response(500, "boom");
    assert_eq!(r, Err(TranscribeError::Server { status: 500, body: "boom".to_string() }));
    let msg = r.unwrap_err().message();
    assert!(msg.contains("500"));
    assert!(msg.contains("boom"));
    assert_eq!(msg, "Server error 500: boom");
}

#[test]
fn non_success_status_ignores_valid_body() {
    let r = interpret_response(404, r#"{"text": "x"}"#);
    assert_eq!(r, Err(TranscribeError::Server { status: 404, body: r#"{"text": "x"}"#.to_string() }));
    let r = interpret_response(199, "");
    assert!(matches!(r, Err(TranscribeError::Server { status: 199, .. })));
    let r = interpret_response(300, "");
    assert!(matches!(r, Err(TranscribeError::Server { status: 300, .. })));
}

#[test]
fn status_rendering_covers_one_and_five_digits() {
    let e = TranscribeError::Server { status: 7, body: String::new() };
    assert_eq!(e.message(), "Server error 7: ");
    let e = TranscribeError::Server { status: 65535, body: "x".to_string() };
    assert_eq!(e.message(), "Server error 65535: x");
}

#[test]
fn malformed_answers_are_parse_errors() {
    assert_eq!(interpret_response(200, "not json"), Err(TranscribeError::Parse));
    assert_eq!(interpret_response(200, r#"{"txt": "a"}"#), Err(TranscribeError::Parse));
    assert_eq!(interpret_response(200, r#"{"text": 5}"#), Err(TranscribeError::Parse));
    assert_eq!(interpret_response(200, r#"["text"]"#), Err(TranscribeError::Parse));
}

#[test]
fn missing_field_maps_to_parse_error() {
    assert_eq!(text_result(None), Err(TranscribeError::Parse));
    assert_eq!(text_result(Some("a".to_string())), Ok("a".to_string()));
}

#[test]
fn failures_are_reported_not_typed() {
    let e = TranscribeError::Transport("connection refused".to_string());
    assert_eq!(e.message(), "Request failed: connection refused");
    assert_eq!(deliver(Err(e.clone())), Delivery::Failed(e));
    assert_eq!(
        TranscribeError::Parse.message(),
        "Failed to parse response: no string text field"
    );
}
