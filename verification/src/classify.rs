//! Failure classification from decoder diagnostic text.
//!
//! The decoder's diagnostic output is matched against known substrings to
//! produce an actionable error category. This is a best-effort heuristic:
//! unrecognized text falls back to the generic stream failure, and callers
//! keep the raw text alongside the category.

use vstd::prelude::*;

use crate::errors::ErrorCategory;
use crate::text::contains_chars;
use crate::text::str_contains;

verus! {

/// The category assigned to a piece of decoder diagnostic text: a refused
/// connection marks the transport unreachable, a timeout marker marks a
/// timeout, an authorization marker marks rejected credentials, and
/// anything else counts as a stream that could not be produced.
pub open spec fn spec_classify(t: Seq<char>) -> ErrorCategory {
    if contains_chars(t, "Connection refused"@) {
        ErrorCategory::TransportUnreachable
    } else if contains_chars(t, "timed out"@) {
        ErrorCategory::Timeout
    } else if contains_chars(t, "401"@) || contains_chars(t, "Unauthorized"@) {
        ErrorCategory::AuthenticationFailed
    } else {
        ErrorCategory::StreamUnavailable
    }
}

/// Classifies decoder diagnostic text into an error category. The caller
/// keeps the raw text: the category is a coarse summary, not a replacement.
pub fn classify_diagnostic(text: &str) -> (c: ErrorCategory)
    ensures
        c == spec_classify(text@),
{
    if str_contains(text, "Connection refused") {
        ErrorCategory::TransportUnreachable
    } else if str_contains(text, "timed out") {
        ErrorCategory::Timeout
    } else if str_contains(text, "401") || str_contains(text, "Unauthorized") {
        ErrorCategory::AuthenticationFailed
    } else {
        ErrorCategory::StreamUnavailable
    }
}

} // verus!
