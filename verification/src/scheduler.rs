//! When the oracle's worker may hand in attested counters.
//!
//! The worker runs once per block. It is held back by two limits, both
//! counted in blocks: after a submission it waits for the interval, and after
//! a block in which it tried and nothing was handed in it waits for the grace
//! period. Nothing here looks at a clock.

use vstd::prelude::*;

verus! {

/// The number of a block.
pub type BlockNumber = u64;

/// The two limits of the worker.
#[derive(Clone, Copy, Debug, PartialEq, Eq, Structural)]
pub struct SubmissionLimits {
    /// The least number of blocks between two submissions.
    pub interval: BlockNumber,
    /// The number of blocks to wait before a block that was skipped is made
    /// up for.
    pub grace_period: BlockNumber,
}

/// What the worker did last.
#[derive(Clone, Copy, Debug, PartialEq, Eq, Structural)]
pub struct Attempt {
    /// The block in which the worker ran.
    pub at: BlockNumber,
    /// Whether counters were handed in; `false` where the fetch or the
    /// submission failed.
    pub submitted: bool,
}

/// The number of blocks from `at` to `now`; none where `now` is not later.
pub open spec fn elapsed(now: BlockNumber, at: BlockNumber) -> nat {
    if now >= at {
        (now - at) as nat
    } else {
        0
    }
}

/// Whether the worker is to try in block `now`: at once where it never ran,
/// after the interval where it submitted last, and after the grace period
/// where its last try came to nothing.
pub open spec fn due(last: Option<Attempt>, now: BlockNumber, limits: SubmissionLimits) -> bool {
    match last {
        None => true,
        Some(attempt) => if attempt.submitted {
            elapsed(now, attempt.at) >= limits.interval
        } else {
            elapsed(now, attempt.at) >= limits.grace_period
        },
    }
}

/// Whether the worker is to try in block `now`, given what it did last.
pub fn is_due(last: Option<Attempt>, now: BlockNumber, limits: SubmissionLimits) -> (go: bool)
    ensures
        go == due(last, now, limits),
{
    match last {
        None => true,
        Some(attempt) => {
            let waited: BlockNumber = if now >= attempt.at {
                now - attempt.at
            } else {
                0
            };
            if attempt.submitted {
                waited >= limits.interval
            } else {
                waited >= limits.grace_period
            }
        },
    }
}

/// After a submission in block `at`, the worker is not due in any block
/// before `at + interval`, and it is due in every block from there on.
pub proof fn lemma_interval_between_submissions(
    at: BlockNumber,
    now: BlockNumber,
    limits: SubmissionLimits,
)
    requires
        at <= now,
    ensures
        due(Some(Attempt { at, submitted: true }), now, limits) <==> now >= at + limits.interval,
{
}

/// After a try in block `at` that came to nothing, the worker is not due in
/// any block before `at + grace_period`, and it is due in every block from
/// there on.
pub proof fn lemma_grace_before_retry(at: BlockNumber, now: BlockNumber, limits: SubmissionLimits)
    requires
        at <= now,
    ensures
        due(Some(Attempt { at, submitted: false }), now, limits) <==> now >= at
            + limits.grace_period,
{
}

} // verus!
