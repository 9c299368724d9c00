//! How an operation reports that it did not succeed.

use vstd::prelude::*;

verus! {

/// The kinds of failure that reach the presentation layer.
#[derive(Clone, Copy, PartialEq, Eq, Debug, Structural)]
pub enum FailureKind {
    /// A file-system operation failed: path not found, permission denied,
    /// not a directory.
    IoFailure,
    /// An output path could not be derived from the source path.
    InvalidPath,
    /// A compiler back end could not be run, or ran and reported an error.
    CompileFailure,
    /// The operating system refused to register a watch.
    WatchSetupFailure,
}

/// A failure: its kind, and the message that the user sees.
#[derive(Clone, Debug, PartialEq, Eq)]
pub struct Failure {
    pub kind: FailureKind,
    pub message: String,
}

/// A `Failure` as a mathematical value.
pub struct FailureView {
    pub kind: FailureKind,
    pub message: Seq<char>,
}

impl View for Failure {
    type V = FailureView;

    open spec fn view(&self) -> FailureView {
        FailureView { kind: self.kind, message: self.message@ }
    }
}

/// A failure of the file system with the operating system's own words.
pub open spec fn io_failure(message: Seq<char>) -> FailureView {
    FailureView { kind: FailureKind::IoFailure, message }
}

impl Failure {
    /// A failure of `kind` that says `message`.
    pub fn new(kind: FailureKind, message: String) -> (f: Failure)
        ensures
            f@ == (FailureView { kind, message: message@ }),
    {
        Failure { kind, message }
    }

    /// A failure of the file system; the operating system's text is kept as
    /// it came.
    pub fn io(message: String) -> (f: Failure)
        ensures
            f@ == io_failure(message@),
    {
        Failure { kind: FailureKind::IoFailure, message }
    }
}

} // verus!
