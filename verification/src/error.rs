//! Reasons for which a refresh can fail. None of them ends the program.

use vstd::prelude::*;

verus! {

/// Why a fetch produced no usable payload.
#[derive(Debug, Clone, Copy, PartialEq, Eq, Structural)]
pub enum FetchError {
    /// The request could not be sent or its answer could not be read.
    Transport,
    /// No answer arrived in time.
    Timeout,
    /// The provider answered with a status that is no success.
    Status(u16),
    /// A payload arrived but holds no result entry.
    MalformedResponse,
}

impl FetchError {
    /// The words in which the error is shown.
    pub open spec fn words(self) -> Seq<char> {
        match self {
            FetchError::Transport => "network error"@,
            FetchError::Timeout => "request timed out"@,
            FetchError::Status(_) => "provider refused the request"@,
            FetchError::MalformedResponse => "malformed response"@,
        }
    }

    /// The words in which the error is shown.
    pub fn describe(self) -> (text: &'static str)
        ensures
            text@ == self.words(),
    {
        match self {
            FetchError::Transport => "network error",
            FetchError::Timeout => "request timed out",
            FetchError::Status(_) => "provider refused the request",
            FetchError::MalformedResponse => "malformed response",
        }
    }
}

/// Why the reference table of tickers could not be loaded.
#[derive(Debug, Clone, Copy, PartialEq, Eq, Structural)]
pub enum CatalogLoadError {
    /// The source of the table does not exist.
    Missing,
    /// The source exists and cannot be read as a table.
    Unreadable,
}

} // verus!
