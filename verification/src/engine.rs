//! The bisection engine, as a state machine over plain values.
//!
//! Each search step is a decision from the current state and the classified
//! outcome of one probe to the next state or a terminal result. The
//! surrounding program owns the loop: it asks [`plan_step`] what to do,
//! performs the network probe at the planned midpoint, classifies the
//! response, reports progress, and feeds the outcome back through
//! [`apply_outcome`]. Every decision is verified; only the database
//! round-trip itself stays outside.
use vstd::prelude::*;

verus! {

use crate::budget::iteration_budget;
use crate::budget::spec_budget;
use crate::errors::SearchError;
use crate::outcome::ProbeOutcome;

/// Timestamps the library accepts: nanoseconds since the Unix epoch, bounded
/// well inside `i128` so that widths and midpoints never overflow. The bound
/// comfortably covers every calendar date a database can report.
pub open spec fn ts_in_range(t: int) -> bool {
    -0x1000000000000000000000000 <= t <= 0x1000000000000000000000000
}

/// Midpoint of a window, rounded toward the start: `start + (end - start) / 2`.
pub open spec fn spec_midpoint(start: int, end: int) -> int {
    start + (end - start) / 2
}

/// Compute the midpoint of two timestamps. The range bound on timestamps
/// guarantees the arithmetic cannot overflow, even for windows spanning
/// many millennia.
pub fn timestamp_midpoint(start: i128, end: i128) -> (m: i128)
    requires
        start <= end,
        ts_in_range(start as int),
        ts_in_range(end as int),
    ensures
        m == spec_midpoint(start as int, end as int),
        start <= m <= end,
        start < end ==> m < end,
        ts_in_range(m as int),
{
    start + (end - start) / 2
}

/// One in-progress search: the current window, the requested accuracy and
/// the probes still allowed. The window and the counter are the only state
/// a step carries to the next; each step produces a fresh value.
#[derive(Debug, Clone, Copy, PartialEq, Eq, Structural)]
pub struct SearchState {
    /// Earliest instant of the current window, nanoseconds since the epoch.
    pub start: i128,
    /// Latest instant of the current window, nanoseconds since the epoch.
    pub end: i128,
    /// Caller-accepted distance from the true transition, in nanoseconds.
    pub accuracy: i128,
    /// Probes still allowed before the search reports exhaustion.
    pub remaining: u32,
}

/// Both bounds are timestamps the library accepts.
pub open spec fn state_wf(s: SearchState) -> bool {
    ts_in_range(s.start as int) && ts_in_range(s.end as int)
}

/// What the engine wants next, given the current state.
#[derive(Debug, Clone, Copy, PartialEq, Eq, Structural)]
pub enum StepPlan {
    /// Probe the diagnostic query at this timestamp.
    Probe(i128),
    /// Terminal failure: the window narrowed to nothing.
    WindowExhausted,
    /// Terminal failure: the iteration budget is spent.
    BudgetExhausted,
}

/// Decide the next move: fail on an exhausted window, then on a spent
/// budget, otherwise probe the midpoint of the current window.
pub fn plan_step(s: &SearchState) -> (p: StepPlan)
    requires
        state_wf(*s),
    ensures
        s.end - s.start <= 0 ==> p == StepPlan::WindowExhausted,
        s.end - s.start > 0 && s.remaining == 0 ==> p == StepPlan::BudgetExhausted,
        s.end - s.start > 0 && s.remaining > 0 ==> p == StepPlan::Probe(
            spec_midpoint(s.start as int, s.end as int) as i128,
        ),
{
    if s.end - s.start <= 0 {
        StepPlan::WindowExhausted
    } else if s.remaining == 0 {
        StepPlan::BudgetExhausted
    } else {
        StepPlan::Probe(timestamp_midpoint(s.start, s.end))
    }
}

/// Where one classified probe takes the search.
#[derive(Debug, Clone, Copy, PartialEq, Eq, Structural)]
pub enum StepTransition {
    /// Terminal success: this timestamp satisfies the query and lies within
    /// the requested accuracy of the window's end.
    Found(i128),
    /// The search continues on a narrowed window.
    Narrowed(SearchState),
}

/// Consume one probe outcome. On `True`, either finish at the midpoint (when
/// the rest of the window is narrower than the accuracy) or search later; on
/// `False` or a hard error, search earlier. Every continuation costs one
/// unit of budget and never widens the window.
pub fn apply_outcome(s: &SearchState, midpoint: i128, outcome: ProbeOutcome) -> (t:
    StepTransition)
    requires
        state_wf(*s),
        s.start < s.end,
        s.remaining >= 1,
        midpoint as int == spec_midpoint(s.start as int, s.end as int),
    ensures
        outcome == ProbeOutcome::True && s.end - midpoint < s.accuracy ==> t
            == StepTransition::Found(midpoint),
        outcome == ProbeOutcome::True && s.end - midpoint >= s.accuracy ==> t
            == StepTransition::Narrowed(
            (SearchState {
                start: midpoint,
                end: s.end,
                accuracy: s.accuracy,
                remaining: (s.remaining - 1) as u32,
            }),
        ),
        outcome != ProbeOutcome::True ==> t == StepTransition::Narrowed(
            (SearchState {
                start: s.start,
                end: midpoint,
                accuracy: s.accuracy,
                remaining: (s.remaining - 1) as u32,
            }),
        ),
        t matches StepTransition::Narrowed(n) ==> state_wf(n) && s.start <= n.start <= n.end
            <= s.end && n.end - n.start <= s.end - s.start && n.remaining < s.remaining
            && n.accuracy == s.accuracy,
{
    match outcome {
        ProbeOutcome::True => {
            if s.end - midpoint < s.accuracy {
                StepTransition::Found(midpoint)
            } else {
                StepTransition::Narrowed(
                    SearchState {
                        start: midpoint,
                        end: s.end,
                        accuracy: s.accuracy,
                        remaining: s.remaining - 1,
                    },
                )
            }
        },
        ProbeOutcome::False => StepTransition::Narrowed(
            SearchState {
                start: s.start,
                end: midpoint,
                accuracy: s.accuracy,
                remaining: s.remaining - 1,
            },
        ),
        ProbeOutcome::Hard => StepTransition::Narrowed(
            SearchState {
                start: s.start,
                end: midpoint,
                accuracy: s.accuracy,
                remaining: s.remaining - 1,
            },
        ),
    }
}

/// Whether and how to report progress for one probe: classified outcomes are
/// reported with their truth value, a hard error is inconclusive and is not
/// reported.
pub open spec fn spec_progress_report(outcome: ProbeOutcome) -> Option<bool> {
    match outcome {
        ProbeOutcome::True => Some(true),
        ProbeOutcome::False => Some(false),
        ProbeOutcome::Hard => None,
    }
}

/// Decide whether the progress callback is invoked for this outcome, and
/// with which truth flag. The callback runs before the search continues, and
/// a failure it returns aborts the search.
pub fn progress_report(outcome: ProbeOutcome) -> (r: Option<bool>)
    ensures
        r == spec_progress_report(outcome),
{
    match outcome {
        ProbeOutcome::True => Some(true),
        ProbeOutcome::False => Some(false),
        ProbeOutcome::Hard => None,
    }
}

/// Validate the window's end before searching: the diagnostic query must no
/// longer hold there. A hard backend failure propagates.
pub fn check_end_outcome(outcome: ProbeOutcome) -> (r: Result<(), SearchError>)
    ensures
        outcome == ProbeOutcome::True ==> r == Result::<(), SearchError>::Err(
            SearchError::StillTrueAtEnd,
        ),
        outcome == ProbeOutcome::False ==> r == Result::<(), SearchError>::Ok(()),
        outcome == ProbeOutcome::Hard ==> r == Result::<(), SearchError>::Err(
            SearchError::BackendFailure,
        ),
{
    match outcome {
        ProbeOutcome::True => Err(SearchError::StillTrueAtEnd),
        ProbeOutcome::False => Ok(()),
        ProbeOutcome::Hard => Err(SearchError::BackendFailure),
    }
}

/// Validate the window's start before searching: the diagnostic query must
/// still hold there. A hard backend failure propagates.
pub fn check_start_outcome(outcome: ProbeOutcome) -> (r: Result<(), SearchError>)
    ensures
        outcome == ProbeOutcome::True ==> r == Result::<(), SearchError>::Ok(()),
        outcome == ProbeOutcome::False ==> r == Result::<(), SearchError>::Err(
            SearchError::AlreadyFalseAtStart,
        ),
        outcome == ProbeOutcome::Hard ==> r == Result::<(), SearchError>::Err(
            SearchError::BackendFailure,
        ),
{
    match outcome {
        ProbeOutcome::True => Ok(()),
        ProbeOutcome::False => Err(SearchError::AlreadyFalseAtStart),
        ProbeOutcome::Hard => Err(SearchError::BackendFailure),
    }
}

/// The state a search begins in: the validated window, the requested
/// accuracy, and the iteration budget computed from their ratio. Validation
/// itself never consumes budget.
pub fn initial_state(start: i128, end: i128, accuracy: i128) -> (s: SearchState)
    requires
        ts_in_range(start as int),
        ts_in_range(end as int),
    ensures
        s.start == start,
        s.end == end,
        s.accuracy == accuracy,
        s.remaining == spec_budget(end - start, accuracy as int),
        state_wf(s),
{
    SearchState { start, end, accuracy, remaining: iteration_budget(end - start, accuracy) }
}

} // verus!
