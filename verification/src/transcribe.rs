//! The transcription service: what is sent to it and how its answer is read.

use vstd::prelude::*;
use crate::error::{bare_failure, explained_failure, ErrorKind, PipelineError, PipelineErrorView};
use crate::json::{error_message, member, member_of, message_of, parse_document, parsed_document, text_of};

verus! {

/// Address of the transcription endpoint.
pub open spec fn endpoint() -> Seq<char> {
    "https://api.groq.com/openai/v1/audio/transcriptions"@
}

/// Name of the environment variable that holds the service's credential.
pub open spec fn credential_variable() -> Seq<char> {
    "GROQ_API_KEY"@
}

/// Identifier of the speech recognition model.
pub open spec fn model() -> Seq<char> {
    "whisper-large-v3"@
}

/// Value of the `Authorization` header for `api_key`.
pub open spec fn bearer(api_key: Seq<char>) -> Seq<char> {
    "Bearer "@ + api_key
}

/// The failure reported when no credential is configured.
pub open spec fn missing_credential() -> PipelineErrorView {
    bare_failure(ErrorKind::Config, "GROQ_API_KEY not set"@)
}

/// The failure reported when the response body is not JSON, with the parser's
/// message.
pub open spec fn undecodable(message: Seq<char>) -> PipelineErrorView {
    explained_failure(ErrorKind::Decode, "Failed to parse JSON response"@, message)
}

/// The failure reported when the response holds no transcript text.
pub open spec fn missing_transcript() -> PipelineErrorView {
    bare_failure(ErrorKind::Schema, "Failed to extract transcript from JSON"@)
}

/// Content of one field of a multipart form.
#[derive(Clone, Debug, PartialEq, Eq)]
pub enum FieldContent {
    /// A text value.
    Text(String),
    /// A file: its name and its bytes.
    File { file_name: String, bytes: Vec<u8> },
}

/// Mathematical value of a [`FieldContent`].
pub enum FieldContentView {
    Text(Seq<char>),
    File { file_name: Seq<char>, bytes: Seq<u8> },
}

impl View for FieldContent {
    type V = FieldContentView;

    open spec fn view(&self) -> FieldContentView {
        match self {
            FieldContent::Text(text) => FieldContentView::Text(text@),
            FieldContent::File { file_name, bytes } => FieldContentView::File {
                file_name: file_name@,
                bytes: bytes@,
            },
        }
    }
}

/// One named field of a multipart form.
#[derive(Clone, Debug, PartialEq, Eq)]
pub struct FormField {
    pub name: String,
    pub content: FieldContent,
}

/// Mathematical value of a [`FormField`].
pub struct FormFieldView {
    pub name: Seq<char>,
    pub content: FieldContentView,
}

impl View for FormField {
    type V = FormFieldView;

    open spec fn view(&self) -> FormFieldView {
        FormFieldView { name: self.name@, content: self.content@ }
    }
}

/// A multipart POST request to the transcription service.
#[derive(Clone, Debug, PartialEq, Eq)]
pub struct UploadRequest {
    /// Address that the request is sent to.
    pub url: String,
    /// Value of the `Authorization` header.
    pub authorization: String,
    /// Fields of the multipart body, in order.
    pub fields: Vec<FormField>,
}

/// Mathematical value of an [`UploadRequest`].
pub struct UploadRequestView {
    pub url: Seq<char>,
    pub authorization: Seq<char>,
    pub fields: Seq<FormFieldView>,
}

impl View for UploadRequest {
    type V = UploadRequestView;

    open spec fn view(&self) -> UploadRequestView {
        UploadRequestView {
            url: self.url@,
            authorization: self.authorization@,
            fields: Seq::new(self.fields@.len(), |i: int| self.fields@[i]@),
        }
    }
}

/// The fields of the form: the audio as `file`, the model, and the request
/// for a JSON response.
pub open spec fn upload_fields(file_name: Seq<char>, audio: Seq<u8>) -> Seq<FormFieldView> {
    seq![
        FormFieldView {
            name: "file"@,
            content: FieldContentView::File { file_name, bytes: audio },
        },
        FormFieldView { name: "model"@, content: FieldContentView::Text(model()) },
        FormFieldView { name: "response_format"@, content: FieldContentView::Text("json"@) },
    ]
}

/// The request that submits `audio`, read from the file `file_name`, on behalf
/// of the holder of `api_key`.
pub open spec fn upload_request(
    api_key: Seq<char>,
    file_name: Seq<char>,
    audio: Seq<u8>,
) -> UploadRequestView {
    UploadRequestView {
        url: endpoint(),
        authorization: bearer(api_key),
        fields: upload_fields(file_name, audio),
    }
}

/// The transcript in a parsed response: the member `text` where it is a
/// string, taken as it is.
pub open spec fn document_transcript(document: serde_json::Value) -> Result<
    Seq<char>,
    PipelineErrorView,
> {
    text_transcript(text_of(member_of(document, "text"@)))
}

/// The transcript, given the text found under `text`, if any was found.
pub open spec fn text_transcript(text: Option<Seq<char>>) -> Result<Seq<char>, PipelineErrorView> {
    match text {
        Some(text) => Ok(text),
        None => Err(missing_transcript()),
    }
}

/// The transcript in a response body.
pub open spec fn response_transcript(body: Seq<u8>) -> Result<Seq<char>, PipelineErrorView> {
    match parsed_document(body) {
        Ok(document) => document_transcript(document),
        Err(error) => Err(undecodable(message_of(error))),
    }
}

/// Whether `outcome` is the view of `result`.
pub open spec fn yields(result: Result<String, PipelineError>, outcome: Result<
    Seq<char>,
    PipelineErrorView,
>) -> bool {
    match result {
        Ok(text) => outcome == Ok::<Seq<char>, PipelineErrorView>(text@),
        Err(error) => outcome == Err::<Seq<char>, PipelineErrorView>(error@),
    }
}

/// Checks that a credential was found. Fails with a configuration error where
/// none was, whatever else is in order.
pub fn require_credential(found: Option<String>) -> (r: Result<String, PipelineError>)
    ensures
        match found {
            Some(api_key) => r == Ok::<String, PipelineError>(api_key),
            None => r is Err && r->Err_0@ == missing_credential(),
        },
{
    match found {
        Some(api_key) => Ok(api_key),
        None => Err(PipelineError::bare(ErrorKind::Config, "GROQ_API_KEY not set")),
    }
}

/// Builds the upload of `audio`, the whole content of the file `file_name`.
pub fn build_upload(api_key: &str, file_name: &str, audio: Vec<u8>) -> (r: UploadRequest)
    ensures
        r@ == upload_request(api_key@, file_name@, audio@),
{
    let mut fields: Vec<FormField> = Vec::new();
    fields.push(
        FormField {
            name: "file".to_owned(),
            content: FieldContent::File { file_name: file_name.to_owned(), bytes: audio },
        },
    );
    fields.push(
        FormField {
            name: "model".to_owned(),
            content: FieldContent::Text("whisper-large-v3".to_owned()),
        },
    );
    fields.push(
        FormField {
            name: "response_format".to_owned(),
            content: FieldContent::Text("json".to_owned()),
        },
    );
    let mut authorization = "Bearer ".to_owned();
    authorization.append(api_key);
    let r = UploadRequest {
        url: "https://api.groq.com/openai/v1/audio/transcriptions".to_owned(),
        authorization,
        fields,
    };
    assert(r@.fields =~= upload_fields(file_name@, audio@));
    r
}

/// Turns the text found under `text` into the transcript, unchanged. Fails
/// with a schema error where no text was found.
pub fn transcript_from_text(text: Option<&str>) -> (r: Result<String, PipelineError>)
    ensures
        match text {
            Some(text) => r is Ok && r->Ok_0@ == text@,
            None => r is Err && r->Err_0@ == missing_transcript(),
        },
{
    match text {
        Some(text) => Ok(text.to_owned()),
        None => Err(
            PipelineError::bare(ErrorKind::Schema, "Failed to extract transcript from JSON"),
        ),
    }
}

/// Reads the transcript from a parsed response.
pub fn transcript_from_document(document: &serde_json::Value) -> (r: Result<String, PipelineError>)
    ensures
        yields(r, document_transcript(*document)),
{
    transcript_from_text(member(document, "text").as_str())
}

/// Reads the transcript from the body of the service's response: fails with a
/// decode error where the body is not JSON, with a schema error where the
/// document has no string under `text`, and otherwise returns that string as
/// it is.
pub fn extract_transcript(body: &[u8]) -> (r: Result<String, PipelineError>)
    ensures
        yields(r, response_transcript(body@)),
{
    match parse_document(body) {
        Ok(document) => transcript_from_document(&document),
        Err(error) => Err(
            PipelineError::explained(
                ErrorKind::Decode,
                "Failed to parse JSON response",
                error_message(&error),
            ),
        ),
    }
}

} // verus!
