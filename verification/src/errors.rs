//! The error model of the service.
//!
//! Every failure a caller can see is one of these kinds; each carries the
//! textual detail that becomes the body of a failure response.

use vstd::prelude::*;

verus! {

/// A failure of the service, as surfaced to a caller.
#[derive(Debug, Clone, PartialEq, Eq)]
pub enum OcrError {
    /// The recognition engine failed on one job; carries the engine's message.
    Recognition(String),
    /// The translation engine failed on one invocation; carries its message.
    Engine(String),
    /// A startup artifact is missing or a startup parameter is invalid; fatal.
    Config(String),
    /// A structured request body is malformed; carries what was wrong.
    Protocol(String),
    /// The operation needs an engine that was never configured.
    Unavailable,
}

impl OcrError {
    /// The textual body a caller receives for this failure.
    pub open spec fn spec_message(&self) -> Seq<char> {
        match self {
            OcrError::Recognition(d) => d@,
            OcrError::Engine(d) => d@,
            OcrError::Config(d) => d@,
            OcrError::Protocol(d) => d@,
            OcrError::Unavailable => "translation unavailable"@,
        }
    }

    /// Renders the failure as the text of a response body.
    pub fn message(&self) -> (r: String)
        ensures
            r@ == self.spec_message(),
    {
        match self {
            OcrError::Recognition(d) => d.clone(),
            OcrError::Engine(d) => d.clone(),
            OcrError::Config(d) => d.clone(),
            OcrError::Protocol(d) => d.clone(),
            OcrError::Unavailable => "translation unavailable".to_owned(),
        }
    }
}

} // verus!
