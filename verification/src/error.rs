//! The failures a run can end in.

use vstd::prelude::*;

verus! {

/// What kind of failure stopped the pipeline.
#[derive(Clone, Copy, Debug, PartialEq, Eq, Structural)]
pub enum ErrorKind {
    /// The source path does not exist or does not carry the archive
    /// extension.
    InvalidInput,
    /// A file-system operation or the start of a tool failed.
    IoError,
    /// The container is malformed.
    ArchiveCorrupt,
}

/// A failure: its kind and a cause for the reader.
#[derive(Clone, Debug, PartialEq, Eq)]
pub struct PipelineError {
    pub kind: ErrorKind,
    pub cause: String,
}

/// A failure as plain values.
pub struct ErrorModel {
    pub kind: ErrorKind,
    pub cause: Seq<char>,
}

impl View for PipelineError {
    type V = ErrorModel;

    open spec fn view(&self) -> ErrorModel {
        ErrorModel { kind: self.kind, cause: self.cause@ }
    }
}

/// The view of a failure that may be absent.
pub open spec fn spec_failure(failure: Option<PipelineError>) -> Option<ErrorModel> {
    match failure {
        Some(error) => Some(error@),
        None => None,
    }
}

impl PipelineError {
    /// A failure of the given kind and cause.
    pub fn new(kind: ErrorKind, cause: &str) -> (r: PipelineError)
        ensures
            r@ == (ErrorModel { kind, cause: cause@ }),
    {
        PipelineError { kind, cause: cause.to_owned() }
    }
}

} // verus!
