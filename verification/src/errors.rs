//! Error taxonomy for capture attempts.
//!
//! Every failure on the capture path is classified into one of these
//! categories. The retry policy keys off `is_transient`: transient failures
//! are retried up to the attempt limit, the others surface immediately.

use vstd::prelude::*;

verus! {

/// Why a capture attempt failed.
#[derive(Clone, Copy, Debug, PartialEq, Eq, Structural)]
pub enum ErrorCategory {
    /// The decoder tool is missing or could not be launched.
    SpawnFailed,
    /// The raw connectivity probe to the source failed.
    TransportUnreachable,
    /// The decoder diagnostics indicate rejected credentials.
    AuthenticationFailed,
    /// The decoder ran but produced no valid stream.
    StreamUnavailable,
    /// Internal signal for finite media: the requested frame lies past the
    /// end; triggers a cursor reset, never surfaced to callers.
    EndOfMedia,
    /// The attempt exceeded its bounded duration.
    Timeout,
    /// The background execution context itself failed to run the operation.
    TaskFailure,
}

impl ErrorCategory {
    /// Whether a one-shot capture retries after a failure of this category.
    ///
    /// Transient categories are retried up to the attempt limit; spawn
    /// failures, rejected credentials, end-of-media (handled by the cursor
    /// reset instead) and infrastructure failures are not.
    pub open spec fn spec_is_transient(self) -> bool {
        self is TransportUnreachable || self is Timeout || self is StreamUnavailable
    }

    /// Executable form of `spec_is_transient`.
    #[verifier::when_used_as_spec(spec_is_transient)]
    pub fn is_transient(self) -> (r: bool)
        ensures
            r == self.spec_is_transient(),
    {
        match self {
            ErrorCategory::TransportUnreachable => true,
            ErrorCategory::Timeout => true,
            ErrorCategory::StreamUnavailable => true,
            _ => false,
        }
    }
}

} // verus!
