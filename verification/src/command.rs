//! The two external tools: how each is invoked and how its exit is judged.

use vstd::prelude::*;
use vstd::utf8::*;
use crate::error::{explained_failure, ErrorKind, PipelineError, PipelineErrorView};
use crate::text::{decode_lossy, lossy_text};

verus! {

/// An external tool of the pipeline.
#[derive(Clone, Copy, Debug, PartialEq, Eq, Hash, Structural)]
pub enum Tool {
    /// Retrieves the audio of the source.
    Downloader,
    /// Re-encodes the audio for speech recognition.
    Converter,
}

impl Tool {
    /// Name of the program to run.
    pub open spec fn program(self) -> Seq<char> {
        match self {
            Tool::Downloader => "yt-dlp"@,
            Tool::Converter => "ffmpeg"@,
        }
    }

    /// Kind of the failures of this tool.
    pub open spec fn failure_kind(self) -> ErrorKind {
        match self {
            Tool::Downloader => ErrorKind::Download,
            Tool::Converter => ErrorKind::Conversion,
        }
    }

    /// Context of a failure to run the program at all.
    pub open spec fn launch_context(self) -> Seq<char> {
        match self {
            Tool::Downloader => "Failed to execute yt-dlp"@,
            Tool::Converter => "Failed to execute ffmpeg"@,
        }
    }

    /// Context of a run that ended with a failure status.
    pub open spec fn exit_context(self) -> Seq<char> {
        match self {
            Tool::Downloader => "yt-dlp failed"@,
            Tool::Converter => "ffmpeg failed"@,
        }
    }

    /// The failure reported when the program could not be started, with the
    /// reason that the system gave.
    pub open spec fn launch_failure(self, reason: Seq<char>) -> PipelineErrorView {
        explained_failure(self.failure_kind(), self.launch_context(), reason)
    }

    /// The failure reported when the program ran and ended with a failure
    /// status, with what it wrote to standard error.
    pub open spec fn exit_failure(self, stderr_text: Seq<char>) -> PipelineErrorView {
        explained_failure(self.failure_kind(), self.exit_context(), stderr_text)
    }

    /// The verdict on a finished run: the exit status alone decides.
    pub open spec fn verdict(self, success: bool, stderr_text: Seq<char>) -> Result<
        (),
        PipelineErrorView,
    > {
        if success {
            Ok(())
        } else {
            Err(self.exit_failure(stderr_text))
        }
    }

    /// Describes a program that could not be started.
    pub fn report_launch_failure(self, reason: String) -> (r: PipelineError)
        ensures
            r@ == self.launch_failure(reason@),
    {
        match self {
            Tool::Downloader => PipelineError::explained(
                ErrorKind::Download,
                "Failed to execute yt-dlp",
                reason,
            ),
            Tool::Converter => PipelineError::explained(
                ErrorKind::Conversion,
                "Failed to execute ffmpeg",
                reason,
            ),
        }
    }

    /// Judges a finished run by its exit status. A failure carries the captured
    /// standard error as text; where those bytes are valid UTF-8 the text is
    /// exactly what they encode.
    pub fn judge_exit(self, success: bool, stderr: &[u8]) -> (r: Result<(), PipelineError>)
        ensures
            success ==> r is Ok,
            !success ==> r is Err && r->Err_0@ == self.exit_failure(lossy_text(stderr@)),
            !success && valid_utf8(stderr@) ==> r->Err_0@ == self.exit_failure(
                decode_utf8(stderr@),
            ),
    {
        if success {
            return Ok(());
        }
        let text = decode_lossy(stderr);
        match self {
            Tool::Downloader => Err(
                PipelineError::explained(ErrorKind::Download, "yt-dlp failed", text),
            ),
            Tool::Converter => Err(
                PipelineError::explained(ErrorKind::Conversion, "ffmpeg failed", text),
            ),
        }
    }
}

/// A program and the arguments it is run with.
#[derive(Clone, Debug, PartialEq, Eq)]
pub struct Invocation {
    pub program: String,
    pub args: Vec<String>,
}

/// Mathematical value of an [`Invocation`].
pub struct InvocationView {
    pub program: Seq<char>,
    pub args: Seq<Seq<char>>,
}

impl View for Invocation {
    type V = InvocationView;

    open spec fn view(&self) -> InvocationView {
        InvocationView { program: self.program@, args: self.args.deep_view() }
    }
}

/// The downloader's arguments: best available audio only, eight parallel
/// fragment downloads, written to `destination`, read from `url`.
pub open spec fn download_arguments(url: Seq<char>, destination: Seq<char>) -> Seq<Seq<char>> {
    seq!["-f"@, "bestaudio"@, "-N8"@, "-o"@, destination, url]
}

/// The converter's arguments: read `input`, encode the audio as Opus at
/// 24 kbit/s, 16 kHz, one channel, keep the audio streams only, no video,
/// write to `output`.
pub open spec fn convert_arguments(input: Seq<char>, output: Seq<char>) -> Seq<Seq<char>> {
    seq![
        "-i"@,
        input,
        "-c:a"@,
        "libopus"@,
        "-b:a"@,
        "24k"@,
        "-ar"@,
        "16000"@,
        "-ac"@,
        "1"@,
        "-map"@,
        "0:a:"@,
        "-vn"@,
        output,
    ]
}

/// How the downloader is run.
pub open spec fn download_invocation(url: Seq<char>, destination: Seq<char>) -> InvocationView {
    InvocationView {
        program: Tool::Downloader.program(),
        args: download_arguments(url, destination),
    }
}

/// How the converter is run.
pub open spec fn convert_invocation(input: Seq<char>, output: Seq<char>) -> InvocationView {
    InvocationView { program: Tool::Converter.program(), args: convert_arguments(input, output) }
}

/// Builds the invocation of the downloader for `url`, writing to `destination`.
/// The URL is handed on as it is.
pub fn download_command(url: &str, destination: &str) -> (r: Invocation)
    ensures
        r@ == download_invocation(url@, destination@),
{
    let mut args: Vec<String> = Vec::new();
    args.push("-f".to_owned());
    args.push("bestaudio".to_owned());
    args.push("-N8".to_owned());
    args.push("-o".to_owned());
    args.push(destination.to_owned());
    args.push(url.to_owned());
    let r = Invocation { program: "yt-dlp".to_owned(), args };
    assert(r.args.deep_view() =~= download_arguments(url@, destination@));
    r
}

/// Builds the invocation of the converter from `input` to `output`.
pub fn convert_command(input: &str, output: &str) -> (r: Invocation)
    ensures
        r@ == convert_invocation(input@, output@),
{
    let mut args: Vec<String> = Vec::new();
    args.push("-i".to_owned());
    args.push(input.to_owned());
    args.push("-c:a".to_owned());
    args.push("libopus".to_owned());
    args.push("-b:a".to_owned());
    args.push("24k".to_owned());
    args.push("-ar".to_owned());
    args.push("16000".to_owned());
    args.push("-ac".to_owned());
    args.push("1".to_owned());
    args.push("-map".to_owned());
    args.push("0:a:".to_owned());
    args.push("-vn".to_owned());
    args.push(output.to_owned());
    let r = Invocation { program: "ffmpeg".to_owned(), args };
    assert(r.args.deep_view() =~= convert_arguments(input@, output@));
    r
}

} // verus!
