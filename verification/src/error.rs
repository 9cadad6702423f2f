//! The failure taxonomy shared by every component.

use vstd::prelude::*;

verus! {

/// The class of a failure.
#[derive(Debug, Clone, Copy, PartialEq, Eq, Structural)]
pub enum ErrorKind {
    /// A configuration is malformed or contradicts itself.
    Config,
    /// The files of a dataset are missing.
    DatasetUnavailable,
    /// The dataset name is not one this pipeline knows.
    UnsupportedDataset,
    /// The architecture tag is not one this pipeline knows.
    UnsupportedArchitecture,
    /// The requested path exists in the design but has no implementation yet.
    NotImplemented,
    /// A checkpoint could not be decoded or does not fit the architecture.
    Checkpoint,
    /// A file or an image could not be read.
    Io,
    /// A model was required but none is loaded, or its input is unusable.
    Inference,
}

/// A failure: its class and the text shown to the user, which names the
/// resource that failed.
#[derive(Debug, Clone, PartialEq, Eq)]
pub struct Error {
    pub kind: ErrorKind,
    pub message: String,
}

impl Error {
    /// True when this failure has the given class and text.
    pub open spec fn is(&self, kind: ErrorKind, message: Seq<char>) -> bool {
        self.kind == kind && self.message@ == message
    }

    /// Builds a failure whose text is `prefix` followed by `resource`.
    pub fn new(kind: ErrorKind, prefix: &str, resource: &str) -> (e: Error)
        ensures
            e.is(kind, prefix@ + resource@),
    {
        Error { kind, message: String::from_str(prefix).concat(resource) }
    }
}

} // verus!
