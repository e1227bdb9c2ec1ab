//! Classified failures of a prompt resolution.

use vstd::prelude::*;

verus! {

/// Terminal failures of a resolution: once one of these is produced, the
/// whole interaction is over and no further attempt is made.
///
/// Recoverable failures (a raw-text test, the parser or a typed-value test
/// rejecting one attempt) never appear here: they consume an attempt and the
/// resolution loop restarts.
#[derive(Clone, Copy, Debug, PartialEq, Eq, Structural)]
pub enum ProcessingError {
    /// The attempt budget was exhausted before a valid answer was produced.
    NoMoreAttempts,
    /// An underlying read or write operation faulted.
    Io,
    /// The input stream ended with no further data while a line was expected.
    Eof,
    /// The configured duration elapsed before the resolution completed.
    Timeout,
}

impl ProcessingError {
    /// A human-readable description of the failure.
    pub fn describe(&self) -> (r: &'static str)
        ensures
            r@ == self.spec_describe(),
    {
        match self {
            ProcessingError::NoMoreAttempts => "No more attempts to answer this question.",
            ProcessingError::Io => "Problems with displaying messages or reading input.",
            ProcessingError::Eof => "EOF reached while asking for input.",
            ProcessingError::Timeout => "User could not answer the question in the given time.",
        }
    }

    /// The text that [`Self::describe`] returns for each failure.
    pub open spec fn spec_describe(&self) -> Seq<char> {
        match self {
            ProcessingError::NoMoreAttempts => "No more attempts to answer this question."@,
            ProcessingError::Io => "Problems with displaying messages or reading input."@,
            ProcessingError::Eof => "EOF reached while asking for input."@,
            ProcessingError::Timeout => "User could not answer the question in the given time."@,
        }
    }
}

} // verus!
