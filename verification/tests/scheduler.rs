use meta_athlete::scheduler::{is_due, Attempt, SubmissionLimits};

const LIMITS: SubmissionLimits = SubmissionLimits { interval: 128, grace_period: 5 };

#[test]
fn a_worker_that_never_ran_is_due() {
    assert!(is_due(None, 0, LIMITS));
    assert!(is_due(None, 77, LIMITS));
    assert!(is_due(None, u64::MAX, LIMITS));
}

#[test]
fn the_interval_passes_between_submissions() {
    let last = Some(Attempt { at: 1000, submitted: true });
    assert!(!is_due(last, 1000, LIMITS));
    assert!(!is_due(last, 1005, LIMITS));
    assert!(!is_due(last, 1127, LIMITS));
    assert!(is_due(last, 1128, LIMITS));
    assert!(is_due(last, 1129, LIMITS));
    assert!(is_due(last, u64::MAX, LIMITS));
}

#[test]
fn a_skipped_block_is_made_up_for_after_the_grace_period() {
    let last = Some(Attempt { at: 1000, submitted: false });
    assert!(!is_due(last, 1000, LIMITS));
    assert!(!is_due(last, 1004, LIMITS));
    assert!(is_due(last, 1005, LIMITS));
    assert!(is_due(last, 1128, LIMITS));
}

#[test]
fn an_earlier_block_counts_as_no_wait() {
    let last = Some(Attempt { at: 1000, submitted: true });
    assert!(!is_due(last, 999, LIMITS));
    assert!(!is_due(last, 0, LIMITS));
    let none = SubmissionLimits { interval: 0, grace_period: 0 };
    assert!(is_due(last, 999, none));
    assert!(is_due(Some(Attempt { at: 1000, submitted: false }), 1000, none));
}

#[test]
fn the_limits_do_not_overflow() {
    let last = Some(Attempt { at: u64::MAX - 1, submitted: true });
    assert!(!is_due(last, u64::MAX, LIMITS));
    let wide = SubmissionLimits { interval: u64::MAX, grace_period: u64::MAX };
    assert!(!is_due(Some(Attempt { at: 1, submitted: true }), u64::MAX, wide));
    assert!(is_due(Some(Attempt { at: 0, submitted: false }), u64::MAX, wide));
}
