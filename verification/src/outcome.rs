//! Classification of a single point-in-time probe.
//!
//! The surrounding program issues the diagnostic query against a read-only
//! snapshot bound to one timestamp and reduces the backend's answer to a
//! [`QueryResponse`]: the first row's first boolean column, the absence of
//! rows, or the failure message it got back. The verified classifier below
//! turns that response into the tri-state [`ProbeOutcome`] the bisection
//! engine consumes.
use vstd::prelude::*;

verus! {

use crate::text::is_substring;
use crate::text::contains_substr;

/// What one point-in-time read of the diagnostic query produced.
#[derive(Debug)]
pub enum QueryResponse {
    /// The query returned at least one row; the value is the first row's
    /// first boolean column.
    Row(bool),
    /// The query returned zero rows: absence of evidence is read as "the
    /// condition does not hold yet".
    NoRows,
    /// The backend reported a failure with this message.
    Failure(String),
}

/// Tri-state classification of one probe.
#[derive(Debug, Clone, Copy, PartialEq, Eq, Structural)]
pub enum ProbeOutcome {
    /// The condition holds at the probed timestamp.
    True,
    /// The condition does not hold, or a soft failure was mapped here.
    False,
    /// An unclassified backend failure: inconclusive, the probe is not
    /// reported as a classified outcome and the search narrows earlier.
    Hard,
}

/// The backend could not find the queried object at the probed timestamp:
/// the schema was not yet created there, or already dropped. Treated as the
/// condition being false, so that the search survives DDL transitions.
pub open spec fn is_object_missing(msg: Seq<char>) -> bool {
    is_substring(msg, "Table not found"@)
}

/// The probed timestamp is older than what the backend can still serve.
pub open spec fn is_staleness_exceeded(msg: Seq<char>) -> bool {
    is_substring(msg, "exceeded the maximum timestamp staleness"@)
}

/// Failures that are semantically equivalent to "condition false".
pub open spec fn is_soft_failure(msg: Seq<char>) -> bool {
    is_object_missing(msg) || is_staleness_exceeded(msg)
}

/// How a response is classified: a boolean row speaks for itself, zero rows
/// mean false, soft failures mean false, anything else is a hard error.
pub open spec fn spec_classify(r: QueryResponse) -> ProbeOutcome {
    match r {
        QueryResponse::Row(b) => if b {
            ProbeOutcome::True
        } else {
            ProbeOutcome::False
        },
        QueryResponse::NoRows => ProbeOutcome::False,
        QueryResponse::Failure(msg) => if is_soft_failure(msg@) {
            ProbeOutcome::False
        } else {
            ProbeOutcome::Hard
        },
    }
}

/// Classify one probe response.
pub fn classify_response(r: &QueryResponse) -> (o: ProbeOutcome)
    ensures
        o == spec_classify(*r),
{
    match r {
        QueryResponse::Row(b) => {
            if *b {
                ProbeOutcome::True
            } else {
                ProbeOutcome::False
            }
        },
        QueryResponse::NoRows => ProbeOutcome::False,
        QueryResponse::Failure(msg) => {
            if contains_substr(msg.as_str(), "Table not found") {
                ProbeOutcome::False
            } else if contains_substr(msg.as_str(), "exceeded the maximum timestamp staleness") {
                ProbeOutcome::False
            } else {
                ProbeOutcome::Hard
            }
        },
    }
}

} // verus!
