//! Per-worker loop decisions.
//!
//! Each worker repeats the same cycle — generate a record, submit it,
//! report the outcome — until its own transport fails. The decisions of
//! that cycle are plain functions here; performing the submission and
//! observing its outcome happen outside the library.

use vstd::prelude::*;

verus! {

/// What one submission attempt came to: either the transport failed
/// before any HTTP status arrived, or some status code came back.
pub enum SubmitOutcome {
    TransportError,
    Status(u16),
}

/// Whether a status code counts as success: the 2xx class.
pub open spec fn is_success_spec(code: u16) -> bool {
    200 <= code < 300
}

/// Classifies one HTTP status code as success or not.
pub fn status_is_success(code: u16) -> (r: bool)
    ensures
        r == is_success_spec(code),
{
    200 <= code && code < 300
}

/// Whether a worker's loop stops after this outcome: only a transport
/// failure halts it; an HTTP status, success or not, lets it go on.
pub open spec fn halts_spec(outcome: SubmitOutcome) -> bool {
    outcome is TransportError
}

/// Decides whether the worker's loop stops after one submission.
pub fn should_halt(outcome: &SubmitOutcome) -> (r: bool)
    ensures
        r == halts_spec(*outcome),
{
    match outcome {
        SubmitOutcome::TransportError => true,
        SubmitOutcome::Status(_) => false,
    }
}

/// How many iterations a worker performs when its submissions come to
/// these outcomes in this order: every iteration up to and including the
/// first transport failure, and all of them when none fails.
pub open spec fn iterations_spec(outcomes: Seq<SubmitOutcome>) -> nat
    decreases outcomes.len(),
{
    if outcomes.len() == 0 {
        0
    } else if halts_spec(outcomes[0]) {
        1
    } else {
        1 + iterations_spec(outcomes.drop_first())
    }
}

/// When the first `i` outcomes let the loop go on, the iteration count is
/// `i` plus the count over the remaining outcomes.
proof fn lemma_iterations_prefix(s: Seq<SubmitOutcome>, i: int)
    requires
        0 <= i <= s.len(),
        forall|k: int| 0 <= k < i ==> !halts_spec(s[k]),
    ensures
        iterations_spec(s) == i + iterations_spec(s.skip(i)),
    decreases i,
{
    if i > 0 {
        assert(!halts_spec(s[0]));
        lemma_iterations_prefix(s.drop_first(), i - 1);
        assert(s.drop_first().skip(i - 1) =~= s.skip(i));
    } else {
        assert(s.skip(0) =~= s);
    }
}

/// A transport failure halts the worker that encountered it on the spot:
/// with the first failure at position `k`, exactly `k + 1` iterations run.
/// Each worker's count depends on its own outcomes alone, so the other
/// workers go on untouched.
pub proof fn lemma_worker_halts_at_first_failure(s: Seq<SubmitOutcome>, k: int)
    requires
        0 <= k < s.len(),
        halts_spec(s[k]),
        forall|j: int| 0 <= j < k ==> !halts_spec(s[j]),
    ensures
        iterations_spec(s) == k + 1,
{
    lemma_iterations_prefix(s, k);
    assert(s.skip(k)[0] == s[k]);
}

/// A worker none of whose submissions fails at the transport level — in
/// particular one that only ever sees non-2xx statuses — performs every
/// iteration.
pub proof fn lemma_worker_without_failure_runs_all(s: Seq<SubmitOutcome>)
    requires
        forall|j: int| 0 <= j < s.len() ==> !halts_spec(s[j]),
    ensures
        iterations_spec(s) == s.len(),
{
    lemma_iterations_prefix(s, s.len() as int);
}

/// Replays a worker's loop against a fixed list of outcomes and returns
/// how many iterations it performed.
pub fn run_worker(outcomes: &Vec<SubmitOutcome>) -> (r: usize)
    ensures
        r == iterations_spec(outcomes@),
{
    let n = outcomes.len();
    let mut i: usize = 0;
    while i < n
        invariant
            i <= n,
            n == outcomes@.len(),
            forall|k: int| 0 <= k < i ==> !halts_spec(outcomes@[k]),
        decreases n - i,
    {
        if should_halt(&outcomes[i]) {
            proof {
                lemma_iterations_prefix(outcomes@, i as int);
                assert(outcomes@.skip(i as int)[0] == outcomes@[i as int]);
            }
            return i + 1;
        }
        i += 1;
    }
    proof {
        lemma_iterations_prefix(outcomes@, n as int);
    }
    i
}

/// The approximate throughput printed by the timing variant: requests per
/// minute extrapolated from the single most recent iteration's wall-clock
/// duration in milliseconds.
pub fn rate_per_minute(elapsed_ms: u64) -> (r: u64)
    requires
        elapsed_ms > 0,
    ensures
        r == 60000u64 / elapsed_ms,
{
    60000 / elapsed_ms
}

} // verus!
