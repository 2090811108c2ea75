use yt_transcriber::error::{ErrorKind, PipelineError};
use yt_transcriber::transcribe::{
    build_upload, extract_transcript, require_credential, transcript_from_document,
    transcript_from_text, FieldContent, FormField, UploadRequest,
};

fn schema_error() -> PipelineError {
    PipelineError {
        kind: ErrorKind::Schema,
        context: "Failed to extract transcript from JSON".to_string(),
        detail: None,
    }
}

#[test]
fn text_field_is_returned_exactly() {
    assert_eq!(
        extract_transcript(b"{\"text\": \"hello world\"}"),
        Ok("hello world".to_string())
    );
}

#[test]
fn text_field_is_neither_trimmed_nor_normalised() {
    let body = "{\"text\": \"  Hello  W\u{f6}rld \\n\\t\", \"x_groq\": {\"id\": \"req_1\"}}";
    assert_eq!(extract_transcript(body.as_bytes()), Ok("  Hello  W\u{f6}rld \n\t".to_string()));
}

#[test]
fn empty_text_is_a_transcript() {
    assert_eq!(extract_transcript(b"{\"text\":\"\"}"), Ok(String::new()));
}

#[test]
fn response_without_text_field_is_a_schema_error() {
    assert_eq!(extract_transcript(b"{\"error\": \"bad request\"}"), Err(schema_error()));
}

#[test]
fn text_field_that_is_no_string_is_a_schema_error() {
    assert_eq!(extract_transcript(b"{\"text\": 5}"), Err(schema_error()));
    assert_eq!(extract_transcript(b"{\"text\": null}"), Err(schema_error()));
    assert_eq!(extract_transcript(b"{\"text\": [\"hello\"]}"), Err(schema_error()));
    assert_eq!(extract_transcript(b"{\"text\": {\"text\": \"hello\"}}"), Err(schema_error()));
}

#[test]
fn document_that_is_no_object_is_a_schema_error() {
    assert_eq!(extract_transcript(b"[1, 2, 3]"), Err(schema_error()));
    assert_eq!(extract_transcript(b"\"text\""), Err(schema_error()));
    assert_eq!(extract_transcript(b"null"), Err(schema_error()));
}

#[test]
fn body_that_is_not_json_is_a_decode_error() {
    let body = b"<html>Bad Gateway</html>";
    let expected = serde_json::from_slice::<serde_json::Value>(body).unwrap_err().to_string();
    let error = extract_transcript(body).unwrap_err();
    assert_eq!(error.kind, ErrorKind::Decode);
    assert_eq!(error.context, "Failed to parse JSON response");
    assert_eq!(error.detail, Some(expected));
    assert_eq!(error.detail, Some("expected value at line 1 column 1".to_string()));
    assert_eq!(
        error.describe(),
        "Failed to parse JSON response: expected value at line 1 column 1"
    );
}

#[test]
fn empty_body_is_a_decode_error() {
    let error = extract_transcript(b"").unwrap_err();
    assert_eq!(error.kind, ErrorKind::Decode);
    assert_eq!(error.detail, Some("EOF while parsing a value at line 1 column 0".to_string()));
}

#[test]
fn trailing_garbage_after_the_document_is_a_decode_error() {
    let error = extract_transcript(b"{\"text\": \"hello\"} world").unwrap_err();
    assert_eq!(error.kind, ErrorKind::Decode);
}

#[test]
fn transcript_comes_from_the_member_named_text() {
    let mut members = serde_json::Map::new();
    members.insert("task".to_string(), serde_json::Value::String("transcribe".to_string()));
    members.insert("text".to_string(), serde_json::Value::String(" spoken words".to_string()));
    let document = serde_json::Value::Object(members);
    assert_eq!(transcript_from_document(&document), Ok(" spoken words".to_string()));
}

#[test]
fn document_with_other_members_only_has_no_transcript() {
    let mut members = serde_json::Map::new();
    members.insert("Text".to_string(), serde_json::Value::String("wrong case".to_string()));
    let document = serde_json::Value::Object(members);
    assert_eq!(transcript_from_document(&document), Err(schema_error()));
    assert_eq!(
        transcript_from_document(&serde_json::Value::String("text".to_string())),
        Err(schema_error())
    );
}

#[test]
fn found_text_becomes_the_transcript() {
    assert_eq!(transcript_from_text(Some("hello world")), Ok("hello world".to_string()));
    assert_eq!(transcript_from_text(Some("")), Ok(String::new()));
    assert_eq!(transcript_from_text(None), Err(schema_error()));
}

#[test]
fn missing_credential_is_a_config_error() {
    assert_eq!(
        require_credential(None),
        Err(PipelineError {
            kind: ErrorKind::Config,
            context: "GROQ_API_KEY not set".to_string(),
            detail: None,
        })
    );
}

#[test]
fn present_credential_is_handed_on() {
    assert_eq!(require_credential(Some("gsk_123".to_string())), Ok("gsk_123".to_string()));
    assert_eq!(require_credential(Some(String::new())), Ok(String::new()));
}

#[test]
fn upload_holds_file_model_and_response_format() {
    let request = build_upload("gsk_123", "converted_audio.webm", vec![0x1a, 0x45, 0xdf, 0xa3]);
    assert_eq!(
        request,
        UploadRequest {
            url: "https://api.groq.com/openai/v1/audio/transcriptions".to_string(),
            authorization: "Bearer gsk_123".to_string(),
            fields: vec![
                FormField {
                    name: "file".to_string(),
                    content: FieldContent::File {
                        file_name: "converted_audio.webm".to_string(),
                        bytes: vec![0x1a, 0x45, 0xdf, 0xa3],
                    },
                },
                FormField {
                    name: "model".to_string(),
                    content: FieldContent::Text("whisper-large-v3".to_string()),
                },
                FormField {
                    name: "response_format".to_string(),
                    content: FieldContent::Text("json".to_string()),
                },
            ],
        }
    );
}

#[test]
fn upload_of_an_empty_file_keeps_the_three_fields() {
    let request = build_upload("", "a.webm", Vec::new());
    assert_eq!(request.authorization, "Bearer ");
    assert_eq!(request.fields.len(), 3);
    assert_eq!(
        request.fields[0].content,
        FieldContent::File { file_name: "a.webm".to_string(), bytes: Vec::new() }
    );
}
