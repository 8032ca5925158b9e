//! Structured errors carried by rejected submissions and failed jobs.

use vstd::prelude::*;
use crate::text::concat3;

verus! {

/// What went wrong, independent of the free-text description.
#[derive(Clone, Copy, Debug, PartialEq, Eq, Structural)]
pub enum ErrorKind {
    /// A required field of the request is missing or malformed.
    InvalidRequest,
    /// A model is absent from the catalog, or its file is absent from disk.
    ModelNotFound,
    /// The engine refused to initialise a model.
    ModelLoadFailed,
    /// The engine failed while transcribing.
    EngineFailure,
    /// The freshly generated job identifier is already in use.
    IdentifierCollision,
}

/// An error kind together with its description.
#[derive(Clone, Debug, PartialEq, Eq)]
pub struct JobError {
    pub kind: ErrorKind,
    pub message: String,
}

impl View for JobError {
    type V = (ErrorKind, Seq<char>);

    open spec fn view(&self) -> (ErrorKind, Seq<char>) {
        (self.kind, self.message@)
    }
}

impl JobError {
    /// An error of `kind` described by `message`.
    pub fn new(kind: ErrorKind, message: String) -> (e: JobError)
        ensures
            e.kind == kind,
            e.message == message,
    {
        JobError { kind, message }
    }

    /// An error of `kind` described by `prefix`, `middle` and `suffix` in a row.
    pub fn describe(kind: ErrorKind, prefix: &str, middle: &str, suffix: &str) -> (e: JobError)
        ensures
            e.kind == kind,
            e.message@ == prefix@ + middle@ + suffix@,
    {
        JobError { kind, message: concat3(prefix, middle, suffix) }
    }
}

} // verus!
