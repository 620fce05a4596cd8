//! The library's laws: properties of whole search runs, proved over the
//! model in [`crate::model`].
use vstd::prelude::*;

verus! {

use crate::budget::lemma_budget_at_least_two;
use crate::budget::lemma_ilog2_bounds;
use crate::budget::lemma_ilog2_nonneg;
use crate::budget::lemma_pow2_mono;
use crate::budget::spec_budget;
use crate::budget::spec_ilog2;
use crate::budget::spec_pow2;
use crate::engine::spec_midpoint;
use crate::errors::SearchError;
use crate::model::ModelResult;
use crate::model::RunModelResult;
use crate::model::model_probes;
use crate::model::run_model;
use crate::model::search_model;
use crate::outcome::ProbeOutcome;
use crate::outcome::QueryResponse;
use crate::outcome::is_soft_failure;
use crate::outcome::spec_classify;

/// The oracle of a diagnostic query whose truth flips exactly once: true
/// strictly before `tstar`, false from `tstar` on, never failing.
pub open spec fn monotone_oracle(tstar: int) -> spec_fn(int) -> ProbeOutcome {
    |t: int|
        if t < tstar {
            ProbeOutcome::True
        } else {
            ProbeOutcome::False
        }
}

/// Monotonic convergence: against a query that is true on `[start, tstar)`
/// and false from `tstar` on, a bisection with an accuracy of at least two
/// nanoseconds and a budget of at least `log2(width) + 1` probes resolves a
/// timestamp strictly within `accuracy` below the transition.
pub proof fn lemma_monotonic_convergence(
    start: int,
    end: int,
    accuracy: int,
    budget: nat,
    tstar: int,
)
    requires
        accuracy >= 2,
        start < tstar <= end,
        budget >= 1,
        end - start - 1 < spec_pow2((budget - 1) as nat),
    ensures
        search_model(start, end, accuracy, budget, monotone_oracle(tstar))
            matches ModelResult::Found(r) && tstar - accuracy < r < tstar,
    decreases budget,
{
    let oracle = monotone_oracle(tstar);
    let w = end - start;
    let mid = spec_midpoint(start, end);
    if w == 1 {
        assert(mid == start);
        assert(oracle(mid) == ProbeOutcome::True);
    } else {
        assert(budget >= 2) by {
            if budget == 1 {
                assert(spec_pow2(0) == 1);
            }
        }
        assert(spec_pow2((budget - 1) as nat) == 2 * spec_pow2((budget - 2) as nat));
        assert(start < mid < end);
        if mid < tstar {
            assert(oracle(mid) == ProbeOutcome::True);
            if end - mid >= accuracy {
                assert(end - mid - 1 < spec_pow2((budget - 2) as nat));
                lemma_monotonic_convergence(mid, end, accuracy, (budget - 1) as nat, tstar);
            }
        } else {
            assert(oracle(mid) == ProbeOutcome::False);
            assert(mid - start - 1 < spec_pow2((budget - 2) as nat));
            lemma_monotonic_convergence(start, mid, accuracy, (budget - 1) as nat, tstar);
        }
    }
}

/// A provably sufficient budget: against a query that flips once at `tstar`,
/// `floor(log2(width)) + 2` probes always resolve a timestamp strictly
/// within `accuracy` below the transition, for any accuracy of at least two
/// nanoseconds.
pub proof fn lemma_log2_width_budget_suffices(
    start: int,
    end: int,
    accuracy: int,
    budget: nat,
    tstar: int,
)
    requires
        accuracy >= 2,
        start < tstar <= end,
        budget >= spec_ilog2(end - start) + 2,
    ensures
        search_model(start, end, accuracy, budget, monotone_oracle(tstar))
            matches ModelResult::Found(r) && tstar - accuracy < r < tstar,
{
    let w = end - start;
    lemma_ilog2_nonneg(w);
    lemma_ilog2_bounds(w);
    assert(spec_pow2((spec_ilog2(w) + 1) as nat) == 2 * spec_pow2(spec_ilog2(w) as nat));
    lemma_pow2_mono((spec_ilog2(w) + 1) as nat, (budget - 1) as nat);
    lemma_monotonic_convergence(start, end, accuracy, budget, tstar);
}

/// Monotonic convergence for a whole run: validation passes on such a query,
/// and when the computed budget covers `log2(width) + 1` probes, the run
/// resolves a timestamp strictly within `accuracy` below the transition.
pub proof fn lemma_run_monotonic_convergence(start: int, end: int, accuracy: int, tstar: int)
    requires
        accuracy >= 2,
        start < tstar <= end,
        end - start - 1 < spec_pow2((spec_budget(end - start, accuracy) - 1) as nat),
    ensures
        run_model(start, end, accuracy, monotone_oracle(tstar))
            matches RunModelResult::Resolved(r) && tstar - accuracy < r < tstar,
{
    lemma_budget_at_least_two(end - start, accuracy);
    lemma_monotonic_convergence(
        start,
        end,
        accuracy,
        spec_budget(end - start, accuracy) as nat,
        tstar,
    );
}

/// Validation gate at the start: a query already false at the window's start
/// (and not still true at its end) fails the run with a precondition
/// violation; by construction of the model no midpoint is ever probed.
pub proof fn lemma_validation_gate_start(
    start: int,
    end: int,
    accuracy: int,
    oracle: spec_fn(int) -> ProbeOutcome,
)
    requires
        oracle(end) == ProbeOutcome::False,
        oracle(start) == ProbeOutcome::False,
    ensures
        run_model(start, end, accuracy, oracle) == RunModelResult::Failed(
            SearchError::AlreadyFalseAtStart,
        ),
{
}

/// Validation gate at the end: a query still true at the window's end fails
/// the run with a precondition violation before any other probe.
pub proof fn lemma_validation_gate_end(
    start: int,
    end: int,
    accuracy: int,
    oracle: spec_fn(int) -> ProbeOutcome,
)
    requires
        oracle(end) == ProbeOutcome::True,
    ensures
        run_model(start, end, accuracy, oracle) == RunModelResult::Failed(
            SearchError::StillTrueAtEnd,
        ),
{
}

/// Exhaustion, first half: whatever the oracle answers, the bisection never
/// makes more probes than its budget.
pub proof fn lemma_probe_count_bounded(
    start: int,
    end: int,
    accuracy: int,
    budget: nat,
    oracle: spec_fn(int) -> ProbeOutcome,
)
    ensures
        model_probes(start, end, accuracy, budget, oracle) <= budget,
    decreases budget,
{
    if end - start > 0 && budget > 0 {
        let mid = spec_midpoint(start, end);
        if oracle(mid) == ProbeOutcome::True {
            if end - mid >= accuracy {
                lemma_probe_count_bounded(mid, end, accuracy, (budget - 1) as nat, oracle);
            }
        } else {
            lemma_probe_count_bounded(start, mid, accuracy, (budget - 1) as nat, oracle);
        }
    }
}

/// Exhaustion, second half: with an accuracy of zero or less no probe can
/// ever land within accuracy of the window's end, so the search can only end
/// exhausted — it never resolves and never runs past its budget.
pub proof fn lemma_nonpositive_accuracy_never_resolves(
    start: int,
    end: int,
    accuracy: int,
    budget: nat,
    oracle: spec_fn(int) -> ProbeOutcome,
)
    requires
        accuracy <= 0,
    ensures
        !(search_model(start, end, accuracy, budget, oracle) is Found),
    decreases budget,
{
    if end - start > 0 && budget > 0 {
        let mid = spec_midpoint(start, end);
        assert(end - mid >= 1);
        if oracle(mid) == ProbeOutcome::True {
            lemma_nonpositive_accuracy_never_resolves(mid, end, accuracy, (budget - 1) as nat, oracle);
        } else {
            lemma_nonpositive_accuracy_never_resolves(start, mid, accuracy, (budget - 1) as nat, oracle);
        }
    }
}

/// Exhaustion, third half: with an accuracy wider than the window, a first
/// probe that answers true resolves the search at once, after exactly one
/// probe.
pub proof fn lemma_coarse_accuracy_first_probe(
    start: int,
    end: int,
    accuracy: int,
    budget: nat,
    oracle: spec_fn(int) -> ProbeOutcome,
)
    requires
        start < end,
        accuracy > end - start,
        budget >= 1,
        oracle(spec_midpoint(start, end)) == ProbeOutcome::True,
    ensures
        search_model(start, end, accuracy, budget, oracle) == ModelResult::Found(
            spec_midpoint(start, end),
        ),
        model_probes(start, end, accuracy, budget, oracle) == 1,
{
}

/// Soft-error transparency: a probe whose backend failure is classified soft
/// (object missing, or staleness exceeded) is indistinguishable from a probe
/// that returned a false row, so it narrows the search instead of aborting
/// it.
pub proof fn lemma_soft_error_transparency(msg: String)
    requires
        is_soft_failure(msg@),
    ensures
        spec_classify(QueryResponse::Failure(msg)) == spec_classify(QueryResponse::Row(false)),
{
}

/// Idempotent classification: classification is a pure function of the
/// response, so probing the same timestamp twice against the same database
/// state yields the same outcome both times.
pub proof fn lemma_idempotent_classification(first: QueryResponse, second: QueryResponse)
    requires
        first == second,
    ensures
        spec_classify(first) == spec_classify(second),
{
}

/// One step of the model: from a probeable state the model either resolves
/// at the midpoint or continues as the model of the narrowed window — the
/// same case split the engine's step functions make, so a driver that obeys
/// their contracts follows the model step for step.
pub proof fn lemma_search_model_step(
    start: int,
    end: int,
    accuracy: int,
    budget: nat,
    oracle: spec_fn(int) -> ProbeOutcome,
)
    requires
        start < end,
        budget >= 1,
    ensures
        search_model(start, end, accuracy, budget, oracle) == ({
            let mid = spec_midpoint(start, end);
            if oracle(mid) == ProbeOutcome::True {
                if end - mid < accuracy {
                    ModelResult::Found(mid)
                } else {
                    search_model(mid, end, accuracy, (budget - 1) as nat, oracle)
                }
            } else {
                search_model(start, mid, accuracy, (budget - 1) as nat, oracle)
            }
        }),
{
}

} // verus!
