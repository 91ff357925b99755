//! The ways in which a call can fail.

use vstd::prelude::*;
use vstd::string::StringExecFns;

verus! {

/// Why a request did not yield a typed answer.
///
/// A call ends in exactly one of a typed answer, a transport failure
/// (`Transport`, `Serde`) and a failure that the server reports (`Anki`).
#[derive(Debug, PartialEq, Eq)]
pub enum Error {
    /// The request could not be sent or no answer came back. Holds what the
    /// transport reported.
    Transport(String),
    /// The answer is no JSON text, or has not the expected shape. Holds the
    /// reason.
    Serde(String),
    /// The server answered with an error. Holds its message, unchanged.
    Anki(String),
}

impl Clone for Error {
    fn clone(&self) -> (r: Self)
        ensures
            r == *self,
    {
        match self {
            Error::Transport(report) => Error::Transport(report.clone()),
            Error::Serde(reason) => Error::Serde(reason.clone()),
            Error::Anki(message) => Error::Anki(message.clone()),
        }
    }
}

impl Error {
    /// The text that this error stands for: which kind it is, and for an
    /// `Anki` error the server's message after it.
    pub open spec fn text(self) -> Seq<char> {
        match self {
            Error::Transport(_) => "send request failed"@,
            Error::Serde(_) => "deserialization error"@,
            Error::Anki(message) => "anki returned an unexpected error: "@ + message@,
        }
    }

    /// The text of this error for a reader.
    pub fn message(&self) -> (r: String)
        ensures
            r@ == self.text(),
    {
        match self {
            Error::Transport(_) => "send request failed".to_owned(),
            Error::Serde(_) => "deserialization error".to_owned(),
            Error::Anki(message) => {
                let head = "anki returned an unexpected error: ".to_owned();
                head.concat(message.as_str())
            },
        }
    }
}

} // verus!
