//! What can go wrong outside the session engine.

use vstd::prelude::*;

verus! {

/// The kinds of input/output failure that this library tells apart.
#[derive(Debug, Clone, Copy, PartialEq, Eq, Structural)]
pub enum IoErrorKind {
    /// The file is not there, or not where files may be read.
    NotFound,
    /// Anything else.
    Other,
}

/// An input/output failure, as plain values.
#[derive(Debug, Clone)]
pub struct IoFailure {
    pub kind: IoErrorKind,
    pub message: String,
}

/// What the library reports outside of sessions.
#[derive(Debug, Clone)]
pub enum GumboError {
    /// Reading or checking a file failed.
    IoError(IoFailure),
}

impl GumboError {
    /// An input/output failure of the given kind.
    pub fn io(kind: IoErrorKind, message: &str) -> (error: GumboError)
        ensures
            error.kind() == kind,
            error.message() == message@,
    {
        GumboError::IoError(IoFailure { kind, message: message.to_owned() })
    }

    /// The kind of the failure.
    pub open spec fn kind(&self) -> IoErrorKind {
        match self {
            GumboError::IoError(failure) => failure.kind,
        }
    }

    /// What the failure says of itself.
    pub open spec fn message(&self) -> Seq<char> {
        match self {
            GumboError::IoError(failure) => failure.message@,
        }
    }

    /// The error in words, for a log or a response.
    pub fn describe(&self) -> (words: String)
        ensures
            words@ == "Error Reading IO"@,
    {
        match self {
            GumboError::IoError(_) => String::from_str("Error Reading IO"),
        }
    }
}

} // verus!
