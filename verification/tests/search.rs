use timestamp_finder::budget::{ilog2_i128, iteration_budget};
use timestamp_finder::convert::{millis_to_nanos, nanos_to_parts, timestamp_parts_to_nanos};
use timestamp_finder::engine::{
    apply_outcome, check_end_outcome, check_start_outcome, initial_state, plan_step,
    progress_report, timestamp_midpoint, SearchState, StepPlan, StepTransition,
};
use timestamp_finder::errors::SearchError;
use timestamp_finder::outcome::{classify_response, ProbeOutcome, QueryResponse};
use timestamp_finder::text::contains_substr;

/// Drive a whole search the way the surrounding program does: two validation
/// probes, then bisection steps until a terminal state. Returns the result
/// and how many probes were issued.
fn run_search<F: Fn(i128) -> QueryResponse>(
    start: i128,
    end: i128,
    accuracy: i128,
    probe: F,
) -> (Result<i128, SearchError>, u32) {
    let mut probes: u32 = 0;

    probes += 1;
    let end_outcome = classify_response(&probe(end));
    if let Err(e) = check_end_outcome(end_outcome) {
        return (Err(e), probes);
    }

    probes += 1;
    let start_outcome = classify_response(&probe(start));
    if let Err(e) = check_start_outcome(start_outcome) {
        return (Err(e), probes);
    }

    let mut state = initial_state(start, end, accuracy);
    loop {
        match plan_step(&state) {
            StepPlan::WindowExhausted => return (Err(SearchError::WindowExhausted), probes),
            StepPlan::BudgetExhausted => return (Err(SearchError::BudgetExhausted), probes),
            StepPlan::Probe(mid) => {
                probes += 1;
                let outcome = classify_response(&probe(mid));
                let _report = progress_report(outcome);
                match apply_outcome(&state, mid, outcome) {
                    StepTransition::Found(ts) => return (Ok(ts), probes),
                    StepTransition::Narrowed(next) => state = next,
                }
            }
        }
    }
}

fn monotone_probe(tstar: i128) -> impl Fn(i128) -> QueryResponse {
    move |t: i128| QueryResponse::Row(t < tstar)
}

#[test]
fn converges_within_accuracy_of_transition() {
    // Window of one minute, accuracy 10ms, transition at thirty seconds.
    let tstar: i128 = 30_000_000_000;
    let accuracy: i128 = 10_000_000;
    let (result, probes) = run_search(0, 60_000_000_000, accuracy, monotone_probe(tstar));
    let found = result.expect("search should resolve");
    assert!(tstar - accuracy <= found && found < tstar);
    assert_eq!(found, 29_992_675_781);
    // Two validation probes plus at most the computed budget.
    assert!(probes <= 2 + iteration_budget(60_000_000_000, accuracy));
}

#[test]
fn always_false_query_fails_validation_after_two_probes() {
    let (result, probes) = run_search(0, 1_000_000, 10, |_t| QueryResponse::Row(false));
    assert_eq!(result, Err(SearchError::AlreadyFalseAtStart));
    assert_eq!(probes, 2);
}

#[test]
fn still_true_at_end_fails_validation_after_one_probe() {
    let (result, probes) = run_search(0, 1_000_000, 10, |_t| QueryResponse::Row(true));
    assert_eq!(result, Err(SearchError::StillTrueAtEnd));
    assert_eq!(probes, 1);
}

#[test]
fn hard_error_at_first_midpoint_does_not_abort_search() {
    // A hard backend failure injected only at the first midpoint (32): the
    // search recurses earlier and still resolves.
    let probe = |t: i128| {
        if t == 32 {
            QueryResponse::Failure(String::from("backend unavailable"))
        } else {
            QueryResponse::Row(t < 10)
        }
    };
    let (result, probes) = run_search(0, 64, 2, probe);
    assert_eq!(result, Ok(9));
    assert_eq!(probes, 8);
}

#[test]
fn object_missing_failure_is_treated_as_false() {
    // After a table drop every later probe reports the object missing; the
    // search treats those probes exactly like false rows and resolves.
    let probe = |t: i128| {
        if t >= 10 {
            QueryResponse::Failure(String::from("Table not found: diagnostics"))
        } else {
            QueryResponse::Row(true)
        }
    };
    let (result, _probes) = run_search(0, 64, 2, probe);
    assert_eq!(result, Ok(9));

    // The same data with plain false rows resolves identically.
    let (plain, _probes) = run_search(0, 64, 2, monotone_probe(10));
    assert_eq!(result, plain);
}

#[test]
fn nonpositive_accuracy_exhausts_within_budget() {
    let (result, probes) = run_search(0, 1024, 0, monotone_probe(10));
    assert_eq!(result, Err(SearchError::BudgetExhausted));
    assert!(probes <= 2 + iteration_budget(1024, 0));
}

#[test]
fn coarse_accuracy_resolves_on_first_probe() {
    // Accuracy wider than the window, first probe true: done in one step.
    let (result, probes) = run_search(0, 10, 100, monotone_probe(9));
    assert_eq!(result, Ok(5));
    assert_eq!(probes, 3);
}

#[test]
fn budget_exhaustion_is_reported() {
    // A one-nanosecond window with one-nanosecond accuracy can never place a
    // probe within accuracy of the end, so the budget runs out.
    let (result, probes) = run_search(0, 1, 1, monotone_probe(1));
    assert_eq!(result, Err(SearchError::BudgetExhausted));
    assert_eq!(probes, 4);
}

#[test]
fn computed_budget_can_exhaust_on_a_late_transition() {
    // The computed budget is floor(log2(width / accuracy)) + 2, which a
    // worst-case path can exceed: a nine-nanosecond window at accuracy two
    // gets four probes, but a transition just below the end needs five.
    let (result, probes) = run_search(0, 9, 2, monotone_probe(8));
    assert_eq!(result, Err(SearchError::BudgetExhausted));
    assert_eq!(probes, 2 + iteration_budget(9, 2));
}

#[test]
fn empty_window_is_reported_exhausted() {
    let state = SearchState { start: 5, end: 5, accuracy: 1, remaining: 3 };
    assert_eq!(plan_step(&state), StepPlan::WindowExhausted);
    let inverted = SearchState { start: 7, end: 5, accuracy: 1, remaining: 3 };
    assert_eq!(plan_step(&inverted), StepPlan::WindowExhausted);
}

#[test]
fn spent_budget_is_reported_exhausted() {
    let state = SearchState { start: 0, end: 100, accuracy: 1, remaining: 0 };
    assert_eq!(plan_step(&state), StepPlan::BudgetExhausted);
}

#[test]
fn classification_of_each_response_kind() {
    assert_eq!(classify_response(&QueryResponse::Row(true)), ProbeOutcome::True);
    assert_eq!(classify_response(&QueryResponse::Row(false)), ProbeOutcome::False);
    assert_eq!(classify_response(&QueryResponse::NoRows), ProbeOutcome::False);
    assert_eq!(
        classify_response(&QueryResponse::Failure(String::from("Table not found: t1"))),
        ProbeOutcome::False
    );
    assert_eq!(
        classify_response(&QueryResponse::Failure(String::from(
            "read exceeded the maximum timestamp staleness the database can serve"
        ))),
        ProbeOutcome::False
    );
    assert_eq!(
        classify_response(&QueryResponse::Failure(String::from("deadline exceeded"))),
        ProbeOutcome::Hard
    );
}

#[test]
fn classification_is_idempotent() {
    let make = || QueryResponse::Failure(String::from("Table not found: t1"));
    assert_eq!(classify_response(&make()), classify_response(&make()));
    let row = || QueryResponse::Row(true);
    assert_eq!(classify_response(&row()), classify_response(&row()));
}

#[test]
fn hard_errors_are_not_reported_as_progress() {
    assert_eq!(progress_report(ProbeOutcome::True), Some(true));
    assert_eq!(progress_report(ProbeOutcome::False), Some(false));
    assert_eq!(progress_report(ProbeOutcome::Hard), None);
}

#[test]
fn validation_outcome_mapping() {
    assert_eq!(check_end_outcome(ProbeOutcome::True), Err(SearchError::StillTrueAtEnd));
    assert_eq!(check_end_outcome(ProbeOutcome::False), Ok(()));
    assert_eq!(check_end_outcome(ProbeOutcome::Hard), Err(SearchError::BackendFailure));
    assert_eq!(check_start_outcome(ProbeOutcome::True), Ok(()));
    assert_eq!(check_start_outcome(ProbeOutcome::False), Err(SearchError::AlreadyFalseAtStart));
    assert_eq!(check_start_outcome(ProbeOutcome::Hard), Err(SearchError::BackendFailure));
}

#[test]
fn midpoint_values() {
    assert_eq!(timestamp_midpoint(0, 10), 5);
    assert_eq!(timestamp_midpoint(0, 11), 5);
    assert_eq!(timestamp_midpoint(-10, 0), -5);
    assert_eq!(timestamp_midpoint(5, 5), 5);
    assert_eq!(timestamp_midpoint(0, 1), 0);
    // A window spanning many millennia does not overflow.
    let lo: i128 = -0x1000000000000000000000000;
    let hi: i128 = 0x1000000000000000000000000;
    assert_eq!(timestamp_midpoint(lo, hi), 0);
}

#[test]
fn budget_values() {
    // One minute at 10ms accuracy: floor(log2(6000)) + 2.
    assert_eq!(iteration_budget(60_000_000_000, 10_000_000), 14);
    assert_eq!(iteration_budget(64, 2), 7);
    // Degenerate requests still get the minimal budget of two.
    assert_eq!(iteration_budget(5, 10), 2);
    assert_eq!(iteration_budget(0, 10), 2);
    assert_eq!(iteration_budget(-3, 10), 2);
    // A non-positive accuracy budgets as if it were one nanosecond.
    assert_eq!(iteration_budget(1024, 0), 12);
    assert_eq!(iteration_budget(1024, -5), 12);
}

#[test]
fn ilog2_values() {
    assert_eq!(ilog2_i128(1), 0);
    assert_eq!(ilog2_i128(2), 1);
    assert_eq!(ilog2_i128(3), 1);
    assert_eq!(ilog2_i128(4), 2);
    assert_eq!(ilog2_i128(1024), 10);
    assert_eq!(ilog2_i128(i128::MAX), 126);
}

#[test]
fn conversion_round_trips() {
    assert_eq!(millis_to_nanos(10), 10_000_000);
    assert_eq!(millis_to_nanos(-3), -3_000_000);
    assert_eq!(timestamp_parts_to_nanos(1, 500_000_000), 1_500_000_000);
    assert_eq!(timestamp_parts_to_nanos(-2, 250_000_000), -1_750_000_000);
    assert_eq!(nanos_to_parts(1_500_000_000), (1, 500_000_000));
    assert_eq!(nanos_to_parts(0), (0, 0));
    assert_eq!(nanos_to_parts(-1), (-1, 999_999_999));
    assert_eq!(nanos_to_parts(-2_000_000_001), (-3, 999_999_999));
    let (sec, nanos) = nanos_to_parts(timestamp_parts_to_nanos(1700000000, 123_456_789));
    assert_eq!((sec, nanos), (1700000000, 123_456_789));
}

#[test]
fn substring_search() {
    assert!(contains_substr("Table not found: t1", "Table not found"));
    assert!(contains_substr("abc", ""));
    assert!(contains_substr("abc", "abc"));
    assert!(!contains_substr("abc", "abcd"));
    assert!(!contains_substr("Table Not Found", "Table not found"));
    assert!(contains_substr(
        "Session read exceeded the maximum timestamp staleness limit",
        "exceeded the maximum timestamp staleness"
    ));
}

#[test]
fn error_descriptions_match_surfaced_messages() {
    assert_eq!(
        SearchError::StillTrueAtEnd.describe(),
        "Check query returned `true` at the end of the time window."
    );
    assert_eq!(
        SearchError::AlreadyFalseAtStart.describe(),
        "Check query returned `false` at the start of the time window."
    );
    assert_eq!(
        SearchError::WindowExhausted.describe(),
        "Maximum accuracy reached without finding a result."
    );
    assert_eq!(
        SearchError::BudgetExhausted.describe(),
        "Exhausted expected iterations without finding a result."
    );
}
