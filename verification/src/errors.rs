//! The failures a search can surface to its caller.
use vstd::prelude::*;

verus! {

/// Every way a search can end without a resolved timestamp.
#[derive(Debug, Clone, Copy, PartialEq, Eq, Structural)]
pub enum SearchError {
    /// Precondition violation: the diagnostic query still holds at the end
    /// of the window, so the transition lies outside it.
    StillTrueAtEnd,
    /// Precondition violation: the diagnostic query already fails at the
    /// start of the window.
    AlreadyFalseAtStart,
    /// The window narrowed to nothing before a probe landed within the
    /// requested accuracy.
    WindowExhausted,
    /// The iteration budget was spent without reaching a result.
    BudgetExhausted,
    /// An unclassified backend failure during validation; the caller holds
    /// the underlying cause.
    BackendFailure,
    /// The progress callback asked for the search to stop.
    Cancelled,
}

impl SearchError {
    /// A human-readable description of the failure.
    pub fn describe(&self) -> (r: &'static str)
        ensures
            *self == SearchError::StillTrueAtEnd ==> r@ == "Check query returned `true` at the end of the time window."@,
            *self == SearchError::AlreadyFalseAtStart ==> r@ == "Check query returned `false` at the start of the time window."@,
            *self == SearchError::WindowExhausted ==> r@ == "Maximum accuracy reached without finding a result."@,
            *self == SearchError::BudgetExhausted ==> r@ == "Exhausted expected iterations without finding a result."@,
            *self == SearchError::BackendFailure ==> r@ == "Backend query failure."@,
            *self == SearchError::Cancelled ==> r@ == "Search cancelled by the progress callback."@,
    {
        match self {
            SearchError::StillTrueAtEnd => "Check query returned `true` at the end of the time window.",
            SearchError::AlreadyFalseAtStart => "Check query returned `false` at the start of the time window.",
            SearchError::WindowExhausted => "Maximum accuracy reached without finding a result.",
            SearchError::BudgetExhausted => "Exhausted expected iterations without finding a result.",
            SearchError::BackendFailure => "Backend query failure.",
            SearchError::Cancelled => "Search cancelled by the progress callback.",
        }
    }
}

} // verus!
