//! The pipeline driver as a state machine.
//!
//! The caller performs the external work: it runs programs, reads the
//! environment and files, talks to the network, writes, copies and removes.
//! After each piece of work it reports what happened as an [`Event`], and
//! [`step`] answers with the next [`Stage`] and the next [`Action`]. The
//! stages run strictly in order and the first failure ends the run.

use vstd::prelude::*;
use vstd::utf8::*;
use crate::command::{
    convert_command, convert_invocation, download_command, download_invocation, Invocation,
    InvocationView, Tool,
};
use crate::error::{explained_failure, ErrorKind, PipelineError, PipelineErrorView};
use crate::text::lossy_text;
use crate::transcribe::{
    build_upload, credential_variable, extract_transcript, missing_credential, require_credential,
    response_transcript, upload_request, UploadRequest, UploadRequestView,
};

verus! {

/// What the user asked for: the source and, optionally, the file that
/// receives the transcript.
#[derive(Clone, Debug, PartialEq, Eq)]
pub struct Job {
    pub url: String,
    pub output: Option<String>,
}

/// Mathematical value of a [`Job`].
pub struct JobView {
    pub url: Seq<char>,
    pub output: Option<Seq<char>>,
}

impl View for Job {
    type V = JobView;

    open spec fn view(&self) -> JobView {
        JobView {
            url: self.url@,
            output: match self.output {
                Some(path) => Some(path@),
                None => None,
            },
        }
    }
}

/// Where a run stands: the external work that is under way, or how the run
/// ended.
#[derive(Clone, Debug, PartialEq, Eq)]
pub enum Stage {
    /// The downloader is running.
    Fetching,
    /// The converter is running.
    Converting,
    /// The credential is being looked up.
    LoadingCredential,
    /// The transcoded audio is being read.
    ReadingAudio { api_key: String },
    /// The audio is with the transcription service.
    Uploading,
    /// The output file is being created.
    CreatingOutput { path: String, transcript: String },
    /// The transcript is being written to the output file.
    WritingOutput { path: String },
    /// The transcript is being copied to the clipboard.
    CopyingToClipboard,
    /// The downloaded audio is being removed.
    RemovingIntermediate,
    /// The transcoded audio is being removed.
    RemovingTranscoded,
    /// Everything succeeded.
    Done,
    /// A stage failed; nothing further is attempted.
    Failed(PipelineError),
}

/// Mathematical value of a [`Stage`].
pub enum StageView {
    Fetching,
    Converting,
    LoadingCredential,
    ReadingAudio { api_key: Seq<char> },
    Uploading,
    CreatingOutput { path: Seq<char>, transcript: Seq<char> },
    WritingOutput { path: Seq<char> },
    CopyingToClipboard,
    RemovingIntermediate,
    RemovingTranscoded,
    Done,
    Failed(PipelineErrorView),
}

impl StageView {
    /// The failure that ended the run, if one did.
    pub open spec fn failure(self) -> Option<PipelineErrorView> {
        match self {
            StageView::Failed(error) => Some(error),
            _ => None,
        }
    }

    /// Whether the run has ended, in success or in failure.
    pub open spec fn ended(self) -> bool {
        self is Done || self is Failed
    }
}

impl View for Stage {
    type V = StageView;

    open spec fn view(&self) -> StageView {
        match self {
            Stage::Fetching => StageView::Fetching,
            Stage::Converting => StageView::Converting,
            Stage::LoadingCredential => StageView::LoadingCredential,
            Stage::ReadingAudio { api_key } => StageView::ReadingAudio { api_key: api_key@ },
            Stage::Uploading => StageView::Uploading,
            Stage::CreatingOutput { path, transcript } => StageView::CreatingOutput {
                path: path@,
                transcript: transcript@,
            },
            Stage::WritingOutput { path } => StageView::WritingOutput { path: path@ },
            Stage::CopyingToClipboard => StageView::CopyingToClipboard,
            Stage::RemovingIntermediate => StageView::RemovingIntermediate,
            Stage::RemovingTranscoded => StageView::RemovingTranscoded,
            Stage::Done => StageView::Done,
            Stage::Failed(error) => StageView::Failed(error@),
        }
    }
}

/// What the caller reports after performing an [`Action`].
#[derive(Clone, Debug, PartialEq, Eq)]
pub enum Event {
    /// A program ran and ended: whether its exit status reported success, and
    /// what it wrote to standard error.
    Exited { success: bool, stderr: Vec<u8> },
    /// The credential lookup ended: the value, if the variable is set.
    Credential(Option<String>),
    /// Bytes arrived: the content of the file that was read, or the body of
    /// the service's response.
    Contents(Vec<u8>),
    /// The work was done and has nothing to hand back.
    Finished,
    /// The work could not be done, for the reason given.
    Failed { reason: String },
}

/// Mathematical value of an [`Event`].
pub enum EventView {
    Exited { success: bool, stderr: Seq<u8> },
    Credential(Option<Seq<char>>),
    Contents(Seq<u8>),
    Finished,
    Failed { reason: Seq<char> },
}

impl View for Event {
    type V = EventView;

    open spec fn view(&self) -> EventView {
        match self {
            Event::Exited { success, stderr } => EventView::Exited {
                success: *success,
                stderr: stderr@,
            },
            Event::Credential(found) => EventView::Credential(
                match found {
                    Some(api_key) => Some(api_key@),
                    None => None,
                },
            ),
            Event::Contents(bytes) => EventView::Contents(bytes@),
            Event::Finished => EventView::Finished,
            Event::Failed { reason } => EventView::Failed { reason: reason@ },
        }
    }
}

/// External work that the caller is asked to perform.
#[derive(Clone, Debug, PartialEq, Eq)]
pub enum Action {
    /// Run a program to its end, capturing its standard error.
    Run(Invocation),
    /// Look up an environment variable.
    ReadCredential { variable: String },
    /// Read a whole file into memory.
    ReadFile { path: String },
    /// Send a request and collect the whole body of the response.
    Upload(UploadRequest),
    /// Create a file, or empty it if it exists, and keep it open.
    CreateFile { path: String },
    /// Write all of `contents` to the file that was just created.
    WriteFile { contents: Vec<u8> },
    /// Replace the content of the system clipboard.
    CopyToClipboard { text: String },
    /// Remove a file.
    RemoveFile { path: String },
    /// Nothing more: the run has ended, as the stage says.
    Stop,
}

/// Mathematical value of an [`Action`].
pub enum ActionView {
    Run(InvocationView),
    ReadCredential { variable: Seq<char> },
    ReadFile { path: Seq<char> },
    Upload(UploadRequestView),
    CreateFile { path: Seq<char> },
    WriteFile { contents: Seq<u8> },
    CopyToClipboard { text: Seq<char> },
    RemoveFile { path: Seq<char> },
    Stop,
}

impl View for Action {
    type V = ActionView;

    open spec fn view(&self) -> ActionView {
        match self {
            Action::Run(invocation) => ActionView::Run(invocation@),
            Action::ReadCredential { variable } => ActionView::ReadCredential {
                variable: variable@,
            },
            Action::ReadFile { path } => ActionView::ReadFile { path: path@ },
            Action::Upload(request) => ActionView::Upload(request@),
            Action::CreateFile { path } => ActionView::CreateFile { path: path@ },
            Action::WriteFile { contents } => ActionView::WriteFile { contents: contents@ },
            Action::CopyToClipboard { text } => ActionView::CopyToClipboard { text: text@ },
            Action::RemoveFile { path } => ActionView::RemoveFile { path: path@ },
            Action::Stop => ActionView::Stop,
        }
    }
}

/// One move of the pipeline: the stage it enters, a line to print on standard
/// output before anything else is done, if any, and the work to perform next.
#[derive(Clone, Debug, PartialEq, Eq)]
pub struct Transition {
    pub stage: Stage,
    pub notice: Option<String>,
    pub action: Action,
}

/// Mathematical value of a [`Transition`].
pub struct TransitionView {
    pub stage: StageView,
    pub notice: Option<Seq<char>>,
    pub action: ActionView,
}

impl View for Transition {
    type V = TransitionView;

    open spec fn view(&self) -> TransitionView {
        TransitionView {
            stage: self.stage@,
            notice: match self.notice {
                Some(text) => Some(text@),
                None => None,
            },
            action: self.action@,
        }
    }
}

/// Name of the file that the downloader writes.
pub open spec fn intermediate_file() -> Seq<char> {
    "temp_audio.webm"@
}

/// Name of the file that the converter writes.
pub open spec fn transcoded_file() -> Seq<char> {
    "converted_audio.webm"@
}

/// What is printed when the transcript goes to standard output.
pub open spec fn shown_transcript(transcript: Seq<char>) -> Seq<char> {
    "Transcription:\n"@ + transcript
}

/// What is printed once the transcript is in the output file.
pub open spec fn saved_notice(path: Seq<char>) -> Seq<char> {
    "Transcription completed. Output saved to "@ + path
}

/// What is printed once the transcript is on the clipboard.
pub open spec fn copied_notice() -> Seq<char> {
    "\nThe transcription has been copied to your clipboard."@
}

/// Moves on silently.
pub open spec fn proceed(stage: StageView, action: ActionView) -> TransitionView {
    TransitionView { stage, notice: None, action }
}

/// Ends the run with a failure.
pub open spec fn halt(error: PipelineErrorView) -> TransitionView {
    TransitionView { stage: StageView::Failed(error), notice: None, action: ActionView::Stop }
}

/// The first move: run the downloader on the source.
pub open spec fn begin(job: JobView) -> TransitionView {
    proceed(StageView::Fetching, ActionView::Run(download_invocation(job.url, intermediate_file())))
}

/// Runs the converter on the downloaded audio.
pub open spec fn convert() -> TransitionView {
    proceed(
        StageView::Converting,
        ActionView::Run(convert_invocation(intermediate_file(), transcoded_file())),
    )
}

/// Looks up the credential of the transcription service.
pub open spec fn look_up_credential() -> TransitionView {
    proceed(
        StageView::LoadingCredential,
        ActionView::ReadCredential { variable: credential_variable() },
    )
}

/// Reads the transcoded audio, keeping the credential for the upload.
pub open spec fn read_audio(api_key: Seq<char>) -> TransitionView {
    proceed(StageView::ReadingAudio { api_key }, ActionView::ReadFile { path: transcoded_file() })
}

/// Submits the transcoded audio under the credential.
pub open spec fn submit(api_key: Seq<char>, audio: Seq<u8>) -> TransitionView {
    proceed(
        StageView::Uploading,
        ActionView::Upload(upload_request(api_key, transcoded_file(), audio)),
    )
}

/// After the downloader ended: run the converter, unless the download failed.
pub open spec fn fetched(success: bool, stderr: Seq<u8>) -> TransitionView {
    match Tool::Downloader.verdict(success, lossy_text(stderr)) {
        Ok(_) => convert(),
        Err(error) => halt(error),
    }
}

/// After the converter ended: look up the credential, unless the conversion
/// failed.
pub open spec fn converted(success: bool, stderr: Seq<u8>) -> TransitionView {
    match Tool::Converter.verdict(success, lossy_text(stderr)) {
        Ok(_) => look_up_credential(),
        Err(error) => halt(error),
    }
}

/// After the credential lookup: read the transcoded audio, unless there is no
/// credential.
pub open spec fn credential_loaded(found: Option<Seq<char>>) -> TransitionView {
    match found {
        Some(api_key) => read_audio(api_key),
        None => halt(missing_credential()),
    }
}

/// Hands the transcript to its destination: the output file where one was
/// named, else standard output and the clipboard.
pub open spec fn deliver(job: JobView, transcript: Seq<char>) -> TransitionView {
    match job.output {
        Some(path) => proceed(
            StageView::CreatingOutput { path, transcript },
            ActionView::CreateFile { path },
        ),
        None => TransitionView {
            stage: StageView::CopyingToClipboard,
            notice: Some(shown_transcript(transcript)),
            action: ActionView::CopyToClipboard { text: transcript },
        },
    }
}

/// After the service responded: deliver the transcript, unless the response
/// holds none.
pub open spec fn responded(job: JobView, body: Seq<u8>) -> TransitionView {
    match response_transcript(body) {
        Ok(transcript) => deliver(job, transcript),
        Err(error) => halt(error),
    }
}

/// Writes the transcript's bytes to the output file that was just created.
pub open spec fn write_transcript(path: Seq<char>, transcript: Seq<char>) -> TransitionView {
    proceed(
        StageView::WritingOutput { path },
        ActionView::WriteFile { contents: encode_utf8(transcript) },
    )
}

/// Confirms the delivery and removes the downloaded audio.
pub open spec fn remove_intermediate(confirmation: Seq<char>) -> TransitionView {
    TransitionView {
        stage: StageView::RemovingIntermediate,
        notice: Some(confirmation),
        action: ActionView::RemoveFile { path: intermediate_file() },
    }
}

/// Removes the transcoded audio.
pub open spec fn remove_transcoded() -> TransitionView {
    proceed(StageView::RemovingTranscoded, ActionView::RemoveFile { path: transcoded_file() })
}

/// Ends the run in success.
pub open spec fn succeed() -> TransitionView {
    proceed(StageView::Done, ActionView::Stop)
}

/// Kind and context of the failure reported when the work of `stage` could
/// not be done; `None` for a stage whose work cannot fail that way or that has
/// no work.
pub open spec fn breakdown(stage: StageView) -> Option<(ErrorKind, Seq<char>)> {
    match stage {
        StageView::Fetching => Some(
            (Tool::Downloader.failure_kind(), Tool::Downloader.launch_context()),
        ),
        StageView::Converting => Some(
            (Tool::Converter.failure_kind(), Tool::Converter.launch_context()),
        ),
        StageView::LoadingCredential => None,
        StageView::ReadingAudio { .. } => Some((ErrorKind::Io, "Failed to read audio file"@)),
        StageView::Uploading => Some((ErrorKind::Request, "Failed to send request"@)),
        StageView::CreatingOutput { .. } => Some((ErrorKind::Io, "Failed to create output file"@)),
        StageView::WritingOutput { .. } => Some(
            (ErrorKind::Io, "Failed to write transcript to file"@),
        ),
        StageView::CopyingToClipboard => Some(
            (ErrorKind::Clipboard, "Failed to copy transcript to clipboard"@),
        ),
        StageView::RemovingIntermediate => Some(
            (ErrorKind::Io, "Failed to remove temporary audio file"@),
        ),
        StageView::RemovingTranscoded => Some(
            (ErrorKind::Io, "Failed to remove converted audio file"@),
        ),
        StageView::Done => None,
        StageView::Failed(_) => None,
    }
}

/// The move after the work of `stage` was done with nothing to hand back, or
/// `None` where the stage waits for no such work.
pub open spec fn next_after_completion(stage: StageView) -> Option<TransitionView> {
    match stage {
        StageView::CreatingOutput { path, transcript } => Some(write_transcript(path, transcript)),
        StageView::WritingOutput { path } => Some(remove_intermediate(saved_notice(path))),
        StageView::CopyingToClipboard => Some(remove_intermediate(copied_notice())),
        StageView::RemovingIntermediate => Some(remove_transcoded()),
        StageView::RemovingTranscoded => Some(succeed()),
        _ => None,
    }
}

/// What a program wrote to standard error before it ended with a failure
/// status, where that is valid UTF-8: the text that the bytes encode.
pub open spec fn verbatim_failure(event: EventView) -> Option<Seq<char>> {
    match event {
        EventView::Exited { success, stderr } => if !success && valid_utf8(stderr) {
            Some(decode_utf8(stderr))
        } else {
            None
        },
        _ => None,
    }
}

/// The move that answers `event` in `stage`, or `None` where the event is not
/// an outcome of the work that the stage waits for. A run that has ended
/// waits for nothing.
pub open spec fn next(job: JobView, stage: StageView, event: EventView) -> Option<TransitionView> {
    match event {
        EventView::Failed { reason } => match breakdown(stage) {
            Some((kind, context)) => Some(halt(explained_failure(kind, context, reason))),
            None => None,
        },
        EventView::Exited { success, stderr } => match stage {
            StageView::Fetching => Some(fetched(success, stderr)),
            StageView::Converting => Some(converted(success, stderr)),
            _ => None,
        },
        EventView::Credential(found) => match stage {
            StageView::LoadingCredential => Some(credential_loaded(found)),
            _ => None,
        },
        EventView::Contents(bytes) => match stage {
            StageView::ReadingAudio { api_key } => Some(submit(api_key, bytes)),
            StageView::Uploading => Some(responded(job, bytes)),
            _ => None,
        },
        EventView::Finished => next_after_completion(stage),
    }
}

/// Ends the run with `error`.
fn stop_with(error: PipelineError) -> (r: Transition)
    ensures
        r@ == halt(error@),
{
    Transition { stage: Stage::Failed(error), notice: None, action: Action::Stop }
}

/// Describes work of `stage` that could not be done for `reason`, where the
/// stage has work that can fail so.
fn describe_breakdown(stage: &Stage, reason: String) -> (r: Option<PipelineError>)
    ensures
        match breakdown(stage@) {
            Some((kind, context)) => r is Some && r->Some_0@ == explained_failure(
                kind,
                context,
                reason@,
            ),
            None => r is None,
        },
{
    match stage {
        Stage::Fetching => Some(Tool::Downloader.report_launch_failure(reason)),
        Stage::Converting => Some(Tool::Converter.report_launch_failure(reason)),
        Stage::ReadingAudio { .. } => Some(
            PipelineError::explained(ErrorKind::Io, "Failed to read audio file", reason),
        ),
        Stage::Uploading => Some(
            PipelineError::explained(ErrorKind::Request, "Failed to send request", reason),
        ),
        Stage::CreatingOutput { .. } => Some(
            PipelineError::explained(ErrorKind::Io, "Failed to create output file", reason),
        ),
        Stage::WritingOutput { .. } => Some(
            PipelineError::explained(ErrorKind::Io, "Failed to write transcript to file", reason),
        ),
        Stage::CopyingToClipboard => Some(
            PipelineError::explained(
                ErrorKind::Clipboard,
                "Failed to copy transcript to clipboard",
                reason,
            ),
        ),
        Stage::RemovingIntermediate => Some(
            PipelineError::explained(
                ErrorKind::Io,
                "Failed to remove temporary audio file",
                reason,
            ),
        ),
        Stage::RemovingTranscoded => Some(
            PipelineError::explained(
                ErrorKind::Io,
                "Failed to remove converted audio file",
                reason,
            ),
        ),
        Stage::LoadingCredential => None,
        Stage::Done => None,
        Stage::Failed(_) => None,
    }
}

/// The move after the downloader ended.
fn after_download(success: bool, stderr: &[u8]) -> (r: Transition)
    ensures
        r@ == fetched(success, stderr@),
        !success && valid_utf8(stderr@) ==> r@ == halt(
            Tool::Downloader.exit_failure(decode_utf8(stderr@)),
        ),
{
    match Tool::Downloader.judge_exit(success, stderr) {
        Ok(_) => Transition {
            stage: Stage::Converting,
            notice: None,
            action: Action::Run(convert_command("temp_audio.webm", "converted_audio.webm")),
        },
        Err(error) => stop_with(error),
    }
}

/// The move after the converter ended.
fn after_conversion(success: bool, stderr: &[u8]) -> (r: Transition)
    ensures
        r@ == converted(success, stderr@),
        !success && valid_utf8(stderr@) ==> r@ == halt(
            Tool::Converter.exit_failure(decode_utf8(stderr@)),
        ),
{
    match Tool::Converter.judge_exit(success, stderr) {
        Ok(_) => Transition {
            stage: Stage::LoadingCredential,
            notice: None,
            action: Action::ReadCredential { variable: "GROQ_API_KEY".to_owned() },
        },
        Err(error) => stop_with(error),
    }
}

/// The move after the credential lookup.
fn after_credential(found: Option<String>) -> (r: Transition)
    ensures
        r@ == credential_loaded(
            match found {
                Some(api_key) => Some(api_key@),
                None => None,
            },
        ),
{
    match require_credential(found) {
        Ok(api_key) => Transition {
            stage: Stage::ReadingAudio { api_key },
            notice: None,
            action: Action::ReadFile { path: "converted_audio.webm".to_owned() },
        },
        Err(error) => stop_with(error),
    }
}

/// The move after the transcoded audio was read.
fn after_audio(api_key: String, audio: Vec<u8>) -> (r: Transition)
    ensures
        r@ == submit(api_key@, audio@),
{
    Transition {
        stage: Stage::Uploading,
        notice: None,
        action: Action::Upload(build_upload(api_key.as_str(), "converted_audio.webm", audio)),
    }
}

/// The sink: sends the transcript to the output file where the job names
/// one, else to standard output and the clipboard.
pub fn dispatch(job: &Job, transcript: String) -> (r: Transition)
    ensures
        r@ == deliver(job@, transcript@),
{
    match &job.output {
        Some(path) => Transition {
            stage: Stage::CreatingOutput { path: path.clone(), transcript },
            notice: None,
            action: Action::CreateFile { path: path.clone() },
        },
        None => {
            let mut shown = "Transcription:\n".to_owned();
            shown.append(transcript.as_str());
            Transition {
                stage: Stage::CopyingToClipboard,
                notice: Some(shown),
                action: Action::CopyToClipboard { text: transcript },
            }
        },
    }
}

/// The move after the service responded with `body`.
fn after_response(job: &Job, body: &[u8]) -> (r: Transition)
    ensures
        r@ == responded(job@, body@),
{
    match extract_transcript(body) {
        Ok(transcript) => dispatch(job, transcript),
        Err(error) => stop_with(error),
    }
}

/// The move after the work of `stage` was done with nothing to hand back.
fn after_completion(stage: Stage) -> (r: Option<Transition>)
    ensures
        match r {
            Some(transition) => next_after_completion(stage@) == Some(transition@),
            None => next_after_completion(stage@) is None,
        },
{
    match stage {
        Stage::CreatingOutput { path, transcript } => Some(
            Transition {
                stage: Stage::WritingOutput { path },
                notice: None,
                action: Action::WriteFile { contents: transcript.as_str().as_bytes_vec() },
            },
        ),
        Stage::WritingOutput { path } => {
            let mut saved = "Transcription completed. Output saved to ".to_owned();
            saved.append(path.as_str());
            Some(
                Transition {
                    stage: Stage::RemovingIntermediate,
                    notice: Some(saved),
                    action: Action::RemoveFile { path: "temp_audio.webm".to_owned() },
                },
            )
        },
        Stage::CopyingToClipboard => Some(
            Transition {
                stage: Stage::RemovingIntermediate,
                notice: Some(
                    "\nThe transcription has been copied to your clipboard.".to_owned(),
                ),
                action: Action::RemoveFile { path: "temp_audio.webm".to_owned() },
            },
        ),
        Stage::RemovingIntermediate => Some(
            Transition {
                stage: Stage::RemovingTranscoded,
                notice: None,
                action: Action::RemoveFile { path: "converted_audio.webm".to_owned() },
            },
        ),
        Stage::RemovingTranscoded => Some(
            Transition { stage: Stage::Done, notice: None, action: Action::Stop },
        ),
        _ => None,
    }
}

impl Stage {
    /// How the run ended: `None` while work is under way, else success or the
    /// failure that ended it.
    pub fn outcome(self) -> (r: Option<Result<(), PipelineError>>)
        ensures
            match r {
                Some(Ok(_)) => self@ is Done,
                Some(Err(error)) => self@ == StageView::Failed(error@),
                None => !self@.ended(),
            },
    {
        match self {
            Stage::Done => Some(Ok(())),
            Stage::Failed(error) => Some(Err(error)),
            _ => None,
        }
    }
}

/// Begins a run: the downloader is to be run on the job's source.
pub fn start(job: &Job) -> (r: Transition)
    ensures
        r@ == begin(job@),
{
    Transition {
        stage: Stage::Fetching,
        notice: None,
        action: Action::Run(download_command(job.url.as_str(), "temp_audio.webm")),
    }
}

/// Answers `event`, the outcome of the work that `stage` was waiting for, with
/// the next move. Returns `None` exactly where the event is no outcome of
/// that work; a run that has ended accepts no event.
///
/// The failure of a program carries what it wrote to standard error as text.
/// Where those bytes are valid UTF-8, the text is exactly what they encode.
pub fn step(job: &Job, stage: Stage, event: Event) -> (r: Option<Transition>)
    ensures
        match r {
            Some(transition) => next(job@, stage@, event@) == Some(transition@),
            None => next(job@, stage@, event@) is None,
        },
        r is Some && verbatim_failure(event@) is Some ==> r->Some_0@.stage.failure() is Some
            && r->Some_0@.stage.failure()->Some_0.detail == verbatim_failure(event@),
{
    match event {
        Event::Failed { reason } => match describe_breakdown(&stage, reason) {
            Some(error) => Some(stop_with(error)),
            None => None,
        },
        Event::Exited { success, stderr } => match stage {
            Stage::Fetching => Some(after_download(success, stderr.as_slice())),
            Stage::Converting => Some(after_conversion(success, stderr.as_slice())),
            _ => None,
        },
        Event::Credential(found) => match stage {
            Stage::LoadingCredential => Some(after_credential(found)),
            _ => None,
        },
        Event::Contents(bytes) => match stage {
            Stage::ReadingAudio { api_key } => Some(after_audio(api_key, bytes)),
            Stage::Uploading => Some(after_response(job, bytes.as_slice())),
            _ => None,
        },
        Event::Finished => after_completion(stage),
    }
}

} // verus!
