//! A mathematical model of a whole search run.
//!
//! The engine's executable steps decide one move at a time; the functions
//! here compose those moves into the full recursion, against an oracle that
//! stands for the database: a function from a timestamp to the classified
//! outcome of probing it. The laws of the library are stated and proved over
//! this model.
use vstd::prelude::*;

verus! {

use crate::budget::spec_budget;
use crate::engine::spec_midpoint;
use crate::errors::SearchError;
use crate::outcome::ProbeOutcome;

/// How a bisection run ends.
pub enum ModelResult {
    /// A timestamp satisfying the query within the accuracy of the window's
    /// end.
    Found(int),
    /// The window narrowed to nothing first.
    WindowExhausted,
    /// The iteration budget ran out first.
    BudgetExhausted,
}

/// The bisection recursion, exactly as the engine steps compose: fail on an
/// empty window, then on a spent budget; otherwise probe the midpoint, and
/// on `True` either finish within accuracy or search later, on anything else
/// search earlier. Each recursive step spends one unit of budget.
pub open spec fn search_model(
    start: int,
    end: int,
    accuracy: int,
    budget: nat,
    oracle: spec_fn(int) -> ProbeOutcome,
) -> ModelResult
    decreases budget,
{
    if end - start <= 0 {
        ModelResult::WindowExhausted
    } else if budget == 0 {
        ModelResult::BudgetExhausted
    } else {
        let mid = spec_midpoint(start, end);
        if oracle(mid) == ProbeOutcome::True {
            if end - mid < accuracy {
                ModelResult::Found(mid)
            } else {
                search_model(mid, end, accuracy, (budget - 1) as nat, oracle)
            }
        } else {
            search_model(start, mid, accuracy, (budget - 1) as nat, oracle)
        }
    }
}

/// How many probes the bisection makes before it stops.
pub open spec fn model_probes(
    start: int,
    end: int,
    accuracy: int,
    budget: nat,
    oracle: spec_fn(int) -> ProbeOutcome,
) -> nat
    decreases budget,
{
    if end - start <= 0 || budget == 0 {
        0
    } else {
        let mid = spec_midpoint(start, end);
        if oracle(mid) == ProbeOutcome::True {
            if end - mid < accuracy {
                1
            } else {
                1 + model_probes(mid, end, accuracy, (budget - 1) as nat, oracle)
            }
        } else {
            1 + model_probes(start, mid, accuracy, (budget - 1) as nat, oracle)
        }
    }
}

/// How a whole run ends: a resolved timestamp or a typed failure.
pub enum RunModelResult {
    Resolved(int),
    Failed(SearchError),
}

/// A whole run: validate the window's end, then its start, then bisect with
/// the computed budget. The two validation probes happen before any midpoint
/// probe and consume no budget.
pub open spec fn run_model(
    start: int,
    end: int,
    accuracy: int,
    oracle: spec_fn(int) -> ProbeOutcome,
) -> RunModelResult {
    if oracle(end) == ProbeOutcome::Hard {
        RunModelResult::Failed(SearchError::BackendFailure)
    } else if oracle(end) == ProbeOutcome::True {
        RunModelResult::Failed(SearchError::StillTrueAtEnd)
    } else if oracle(start) == ProbeOutcome::Hard {
        RunModelResult::Failed(SearchError::BackendFailure)
    } else if oracle(start) == ProbeOutcome::False {
        RunModelResult::Failed(SearchError::AlreadyFalseAtStart)
    } else {
        match search_model(start, end, accuracy, spec_budget(end - start, accuracy) as nat, oracle) {
            ModelResult::Found(t) => RunModelResult::Resolved(t),
            ModelResult::WindowExhausted => RunModelResult::Failed(SearchError::WindowExhausted),
            ModelResult::BudgetExhausted => RunModelResult::Failed(SearchError::BudgetExhausted),
        }
    }
}

} // verus!
