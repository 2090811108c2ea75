//! Failures of the pipeline.

use vstd::prelude::*;

verus! {

/// The kinds of failure that the pipeline reports.
#[derive(Clone, Copy, Debug, PartialEq, Eq, Hash, Structural)]
pub enum ErrorKind {
    /// The downloader could not be run or reported failure.
    Download,
    /// The converter could not be run or reported failure.
    Conversion,
    /// The credential of the transcription service is not configured.
    Config,
    /// A file could not be read, created, written or removed.
    Io,
    /// The request to the transcription service could not be carried out.
    Request,
    /// The body of the service's response is not JSON.
    Decode,
    /// The response is JSON but holds no transcript text.
    Schema,
    /// The transcript could not be placed on the clipboard.
    Clipboard,
}

/// A failure of one stage: its kind, the operation that failed, and the text
/// that the failing party gave, where it gave any.
#[derive(Clone, Debug, PartialEq, Eq)]
pub struct PipelineError {
    pub kind: ErrorKind,
    pub context: String,
    pub detail: Option<String>,
}

/// Mathematical value of a [`PipelineError`].
pub struct PipelineErrorView {
    pub kind: ErrorKind,
    pub context: Seq<char>,
    pub detail: Option<Seq<char>>,
}

impl PipelineErrorView {
    /// The one-line description: the context, followed by a colon, a space
    /// and the detail where there is one.
    pub open spec fn description(self) -> Seq<char> {
        match self.detail {
            Some(detail) => self.context + ": "@ + detail,
            None => self.context,
        }
    }
}

/// A failure of `kind` during `context` for which no further text exists.
pub open spec fn bare_failure(kind: ErrorKind, context: Seq<char>) -> PipelineErrorView {
    PipelineErrorView { kind, context, detail: None }
}

/// A failure of `kind` during `context`, explained by `detail`.
pub open spec fn explained_failure(
    kind: ErrorKind,
    context: Seq<char>,
    detail: Seq<char>,
) -> PipelineErrorView {
    PipelineErrorView { kind, context, detail: Some(detail) }
}

impl View for PipelineError {
    type V = PipelineErrorView;

    open spec fn view(&self) -> PipelineErrorView {
        PipelineErrorView {
            kind: self.kind,
            context: self.context@,
            detail: match self.detail {
                Some(detail) => Some(detail@),
                None => None,
            },
        }
    }
}

impl PipelineError {
    /// A failure without detail.
    pub fn bare(kind: ErrorKind, context: &str) -> (r: PipelineError)
        ensures
            r@ == bare_failure(kind, context@),
    {
        PipelineError { kind, context: context.to_owned(), detail: None }
    }

    /// A failure with the text that explains it.
    pub fn explained(kind: ErrorKind, context: &str, detail: String) -> (r: PipelineError)
        ensures
            r@ == explained_failure(kind, context@, detail@),
    {
        PipelineError { kind, context: context.to_owned(), detail: Some(detail) }
    }

    /// The kind of this failure.
    pub fn kind(&self) -> (r: ErrorKind)
        ensures
            r == self@.kind,
    {
        self.kind
    }

    /// The description shown to the user.
    pub fn describe(&self) -> (r: String)
        ensures
            r@ == self@.description(),
    {
        let mut text = self.context.clone();
        match &self.detail {
            Some(detail) => {
                text.append(": ");
                text.append(detail.as_str());
            },
            None => {},
        }
        text
    }
}

} // verus!
