use static_site_deploy::error::{Cause, Error};
use static_site_deploy::invalidation::{
    classify_invalidation_status, invalidate_distribution, invalidation_outcome,
    wait_for_invalidation,
};
use static_site_deploy::poller::{Classification, PollOutcome};

#[test]
fn invalidation_covers_everything_and_is_marked_by_the_time() {
    let request = invalidate_distribution(&"E2ABC".to_string(), 1698530400123);
    assert_eq!(request.distribution_id, "E2ABC");
    assert_eq!(request.caller_reference, "1698530400123");
    assert_eq!(request.paths, vec!["/*".to_string()]);
    assert_eq!(request.quantity, 1);
}

#[test]
fn invalidations_at_different_times_have_different_references() {
    let id = "E2ABC".to_string();
    let first = invalidate_distribution(&id, 1000);
    let second = invalidate_distribution(&id, 1001);
    assert_ne!(first.caller_reference, second.caller_reference);
    assert_eq!(invalidate_distribution(&id, 0).caller_reference, "0");
}

#[test]
fn only_completed_is_success() {
    assert_eq!(classify_invalidation_status("Completed"), Classification::Success);
    assert_eq!(classify_invalidation_status("InProgress"), Classification::Transient);
    assert_eq!(classify_invalidation_status("completed"), Classification::Transient);
    assert_eq!(classify_invalidation_status("Failed"), Classification::Transient);
    assert_eq!(classify_invalidation_status(""), Classification::Transient);
}

#[test]
fn wait_for_invalidation_settles_retries_or_fails() {
    assert_eq!(wait_for_invalidation(Ok("Completed".to_string())), PollOutcome::Settled);
    assert_eq!(
        wait_for_invalidation(Ok("InProgress".to_string())),
        PollOutcome::Retry { after_secs: 10 }
    );
    let failure = Cause { message: "gone".to_string(), detail: "NoSuchInvalidation".to_string() };
    assert_eq!(
        wait_for_invalidation(Err(failure.clone())),
        PollOutcome::Failed(Error::GetInvalidationError { source: failure })
    );
}

#[test]
fn invalidation_outcome_keeps_the_id_or_wraps_the_error() {
    assert_eq!(invalidation_outcome(Ok("I1".to_string())), Ok("I1".to_string()));
    let failure = Cause { message: "denied".to_string(), detail: "AccessDenied".to_string() };
    assert_eq!(
        invalidation_outcome(Err(failure.clone())),
        Err(Error::CreateInvalidationError { source: failure })
    );
}
