//! The decisions of one fetch, validate and submit cycle. The caller runs
//! the cycle, sleeps `CYCLE_INTERVAL_SECS`, and starts the next one; no
//! outcome of a cycle carries over to the next.

use vstd::prelude::*;
use crate::snapshot::{is_mock, Snapshot};
use crate::validate::{validate, validation, ValidationError};

verus! {

/// Seconds between the start of one wait and the next cycle.
pub const CYCLE_INTERVAL_SECS: u64 = 30;

/// Why the sink did not take a snapshot.
#[derive(Clone, Copy, Debug, PartialEq, Eq, Structural)]
pub enum SubmitError {
    SubmitFailed,
}

/// What a cycle does with its fetched snapshot.
#[derive(Clone, Debug, PartialEq)]
pub enum CycleAction {
    /// Hand this snapshot to the sink, once.
    Submit(Snapshot),
    /// Drop the snapshot; nothing is submitted this cycle.
    Abandon(ValidationError),
}

/// How a cycle ended.
#[derive(Clone, Copy, Debug, PartialEq, Eq, Structural)]
pub enum CycleOutcome {
    Submitted,
    Rejected(ValidationError),
    SubmitFailed(SubmitError),
}

/// The action for a fetched snapshot: submit it if it validates.
pub open spec fn submission_plan(s: Snapshot) -> CycleAction {
    match validation(s) {
        Ok(v) => CycleAction::Submit(v),
        Err(e) => CycleAction::Abandon(e),
    }
}

/// How many times the sink is called under action `a`.
pub open spec fn submissions(a: CycleAction) -> nat {
    match a {
        CycleAction::Submit(_) => 1,
        CycleAction::Abandon(_) => 0,
    }
}

/// How the cycle ends after the sink answered `result`.
pub open spec fn submit_outcome(result: Result<(), SubmitError>) -> CycleOutcome {
    match result {
        Ok(()) => CycleOutcome::Submitted,
        Err(e) => CycleOutcome::SubmitFailed(e),
    }
}

/// Validates the fetched snapshot and decides whether it is submitted.
pub fn plan_submission(s: Snapshot) -> (r: CycleAction)
    ensures
        r == submission_plan(s),
{
    match validate(s) {
        Ok(v) => CycleAction::Submit(v),
        Err(e) => CycleAction::Abandon(e),
    }
}

/// The outcome of a cycle whose action was `Abandon(e)`.
pub fn rejected(e: ValidationError) -> (r: CycleOutcome)
    ensures
        r == CycleOutcome::Rejected(e),
{
    CycleOutcome::Rejected(e)
}

/// The outcome of a cycle once the sink answered.
pub fn conclude(result: Result<(), SubmitError>) -> (r: CycleOutcome)
    ensures
        r == submit_outcome(result),
{
    match result {
        Ok(()) => CycleOutcome::Submitted,
        Err(e) => CycleOutcome::SubmitFailed(e),
    }
}

/// The mock reading always validates, so a cycle that falls back to it
/// submits it exactly once, unchanged.
pub proof fn lemma_mock_submitted_once(s: Snapshot, timestamp: i64, id: Seq<char>)
    requires
        is_mock(s, timestamp, id),
    ensures
        submission_plan(s) == CycleAction::Submit(s),
        submissions(submission_plan(s)) == 1,
{
}

/// A snapshot that fails validation is never submitted; one that passes
/// is submitted exactly once.
pub proof fn lemma_submitted_iff_valid(s: Snapshot)
    ensures
        submissions(submission_plan(s)) == 1 <==> validation(s) is Ok,
        submissions(submission_plan(s)) == 0 <==> validation(s) is Err,
{
}

} // verus!
