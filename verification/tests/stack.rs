use static_site_deploy::error::{Cause, Error};
use static_site_deploy::poller::{poll_step, Classification, PollOutcome, POLL_INTERVAL_SECS};
use static_site_deploy::stack::{
    classify_stack_status, create_stack, create_stack_outcome, find_output, get_stack_output,
    stack_exists_and_is_complete, update_stack, update_stack_outcome, wait_for_stack, Parameter,
    StackOperation, StackOutput, StackStatus,
};

fn cause(message: &str, detail: &str) -> Cause {
    Cause { message: message.to_string(), detail: detail.to_string() }
}

fn all_statuses() -> Vec<StackStatus> {
    vec![
        StackStatus::CreateComplete,
        StackStatus::CreateFailed,
        StackStatus::CreateInProgress,
        StackStatus::DeleteComplete,
        StackStatus::DeleteFailed,
        StackStatus::DeleteInProgress,
        StackStatus::ImportComplete,
        StackStatus::ImportInProgress,
        StackStatus::ImportRollbackComplete,
        StackStatus::ImportRollbackFailed,
        StackStatus::ImportRollbackInProgress,
        StackStatus::ReviewInProgress,
        StackStatus::RollbackComplete,
        StackStatus::RollbackFailed,
        StackStatus::RollbackInProgress,
        StackStatus::UpdateComplete,
        StackStatus::UpdateCompleteCleanupInProgress,
        StackStatus::UpdateFailed,
        StackStatus::UpdateInProgress,
        StackStatus::UpdateRollbackComplete,
        StackStatus::UpdateRollbackCompleteCleanupInProgress,
        StackStatus::UpdateRollbackFailed,
        StackStatus::UpdateRollbackInProgress,
        StackStatus::Unknown,
    ]
}

#[test]
fn success_statuses_settle_without_another_poll() {
    for status in [StackStatus::CreateComplete, StackStatus::UpdateComplete] {
        assert_eq!(classify_stack_status(status), Classification::Success);
        assert_eq!(wait_for_stack(Ok(status)), PollOutcome::Settled);
    }
}

#[test]
fn failure_statuses_fail_on_the_first_poll() {
    let failures = [
        StackStatus::CreateFailed,
        StackStatus::UpdateFailed,
        StackStatus::UpdateRollbackInProgress,
        StackStatus::UpdateRollbackFailed,
        StackStatus::UpdateRollbackComplete,
        StackStatus::UpdateRollbackCompleteCleanupInProgress,
        StackStatus::DeleteFailed,
        StackStatus::DeleteInProgress,
        StackStatus::DeleteComplete,
        StackStatus::RollbackFailed,
        StackStatus::RollbackInProgress,
        StackStatus::RollbackComplete,
    ];
    for status in failures {
        assert_eq!(classify_stack_status(status), Classification::Failure);
        assert_eq!(wait_for_stack(Ok(status)), PollOutcome::Failed(Error::UnusableStackStatus));
    }
}

#[test]
fn other_statuses_sleep_one_interval() {
    let transient = [
        StackStatus::CreateInProgress,
        StackStatus::UpdateInProgress,
        StackStatus::UpdateCompleteCleanupInProgress,
        StackStatus::ReviewInProgress,
        StackStatus::ImportComplete,
        StackStatus::ImportInProgress,
        StackStatus::ImportRollbackComplete,
        StackStatus::ImportRollbackFailed,
        StackStatus::ImportRollbackInProgress,
        StackStatus::Unknown,
    ];
    for status in transient {
        assert_eq!(classify_stack_status(status), Classification::Transient);
        assert_eq!(wait_for_stack(Ok(status)), PollOutcome::Retry { after_secs: 10 });
    }
    assert_eq!(POLL_INTERVAL_SECS, 10);
}

#[test]
fn every_status_is_classified_once() {
    let mut success = 0;
    let mut failure = 0;
    let mut transient = 0;
    for status in all_statuses() {
        match classify_stack_status(status) {
            Classification::Success => success += 1,
            Classification::Failure => failure += 1,
            Classification::Transient => transient += 1,
        }
    }
    assert_eq!((success, failure, transient), (2, 12, 10));
}

#[test]
fn a_failed_describe_ends_the_wait_with_its_error() {
    let failure = cause("connection reset", "DispatchFailure");
    assert_eq!(
        wait_for_stack(Err(failure.clone())),
        PollOutcome::Failed(Error::DescribeStacksError { source: failure })
    );
}

#[test]
fn poll_step_passes_a_fetch_error_through() {
    let error = Error::GetInvalidationError { source: cause("m", "d") };
    assert_eq!(poll_step(Err(error.clone())), PollOutcome::Failed(error));
    assert_eq!(poll_step(Ok(Classification::Success)), PollOutcome::Settled);
    assert_eq!(
        poll_step(Ok(Classification::Failure)),
        PollOutcome::Failed(Error::UnusableStackStatus)
    );
    assert_eq!(poll_step(Ok(Classification::Transient)), PollOutcome::Retry { after_secs: 10 });
}

#[test]
fn probe_tells_usable_missing_and_unusable_apart() {
    for status in
        [StackStatus::CreateComplete, StackStatus::UpdateComplete, StackStatus::UpdateRollbackComplete]
    {
        assert_eq!(stack_exists_and_is_complete(Ok(status)), Ok(true));
    }
    for status in all_statuses() {
        let usable = matches!(
            status,
            StackStatus::CreateComplete
                | StackStatus::UpdateComplete
                | StackStatus::UpdateRollbackComplete
        );
        if !usable {
            assert_eq!(stack_exists_and_is_complete(Ok(status)), Err(Error::UnusableStackStatus));
        }
    }
    let missing = cause("Stack with id StaticSite--example-com does not exist", "ValidationError");
    assert_eq!(stack_exists_and_is_complete(Err(missing)), Ok(false));
    let denied = cause("access denied", "does not exist");
    assert_eq!(
        stack_exists_and_is_complete(Err(denied.clone())),
        Err(Error::DescribeStacksError { source: denied })
    );
}

#[test]
fn stack_requests_carry_the_two_parameters() {
    let name = "StaticSite--www-example-com".to_string();
    let body = "Resources: {}".to_string();
    let zone = "Z123".to_string();
    let domain = "www.example.com".to_string();
    let created = create_stack(&name, &body, &zone, &domain);
    assert_eq!(created.operation, StackOperation::Create);
    assert_eq!(created.stack_name, name);
    assert_eq!(created.template_body, body);
    assert_eq!(
        created.parameters,
        vec![
            Parameter { key: "HostedZoneId".to_string(), value: "Z123".to_string() },
            Parameter { key: "DomainName".to_string(), value: "www.example.com".to_string() },
        ]
    );
    let updated = update_stack(&name, &body, &zone, &domain);
    assert_eq!(updated.operation, StackOperation::Update);
    assert_eq!(updated.stack_name, created.stack_name);
    assert_eq!(updated.template_body, created.template_body);
    assert_eq!(updated.parameters, created.parameters);
}

#[test]
fn update_without_changes_counts_as_success() {
    assert_eq!(update_stack_outcome(Ok(())), Ok(()));
    let nothing = cause(
        "service error",
        "ServiceError { message: Some(\"No updates are to be performed.\") }",
    );
    assert_eq!(update_stack_outcome(Err(nothing)), Ok(()));
}

#[test]
fn any_other_update_error_propagates_unchanged() {
    let other = cause("No updates are to be performed.", "ServiceError { code: Throttling }");
    assert_eq!(
        update_stack_outcome(Err(other.clone())),
        Err(Error::UpdateStackError { source: other })
    );
    let close = cause("x", "No updates are to be performed");
    assert_eq!(
        update_stack_outcome(Err(close.clone())),
        Err(Error::UpdateStackError { source: close })
    );
}

#[test]
fn create_outcome_keeps_the_id_or_wraps_the_error() {
    assert_eq!(create_stack_outcome(Ok("arn:stack/1".to_string())), Ok("arn:stack/1".to_string()));
    let refused = cause("already exists", "AlreadyExistsException");
    assert_eq!(
        create_stack_outcome(Err(refused.clone())),
        Err(Error::CreateStackError { source: refused })
    );
}

fn outputs() -> Vec<StackOutput> {
    vec![
        StackOutput { key: "StaticWebsiteBucket".to_string(), value: "b1".to_string() },
        StackOutput { key: "Distribution".to_string(), value: "d1".to_string() },
        StackOutput { key: "Distribution".to_string(), value: "d2".to_string() },
    ]
}

#[test]
fn get_stack_output_returns_the_first_match() {
    let described = Ok(outputs());
    assert_eq!(get_stack_output(&described, "StaticWebsiteBucket"), Ok("b1".to_string()));
    assert_eq!(get_stack_output(&described, "Distribution"), Ok("d1".to_string()));
    assert_eq!(find_output(&outputs(), "Distribution"), Some("d1".to_string()));
    assert_eq!(find_output(&outputs(), "distribution"), None);
}

#[test]
fn get_stack_output_fails_when_the_key_is_absent() {
    let described = Ok(outputs());
    assert_eq!(get_stack_output(&described, "Missing"), Err(Error::StackOutputNotFound));
    let none: Result<Vec<StackOutput>, Cause> = Ok(Vec::new());
    assert_eq!(get_stack_output(&none, "Distribution"), Err(Error::StackOutputNotFound));
}

#[test]
fn get_stack_output_reports_a_failed_describe() {
    let failure = cause("timeout", "TimeoutError");
    let described: Result<Vec<StackOutput>, Cause> = Err(failure.clone());
    assert_eq!(
        get_stack_output(&described, "Distribution"),
        Err(Error::DescribeStacksError { source: failure })
    );
}

#[test]
fn status_names_read_back() {
    for status in all_statuses() {
        match status.name() {
            Some(name) => assert_eq!(StackStatus::from_name(name), status),
            None => assert_eq!(status, StackStatus::Unknown),
        }
    }
    assert_eq!(StackStatus::from_name("CREATE_COMPLETE"), StackStatus::CreateComplete);
    assert_eq!(
        StackStatus::from_name("UPDATE_ROLLBACK_COMPLETE_CLEANUP_IN_PROGRESS"),
        StackStatus::UpdateRollbackCompleteCleanupInProgress
    );
    assert_eq!(StackStatus::from_name("create_complete"), StackStatus::Unknown);
    assert_eq!(StackStatus::from_name(""), StackStatus::Unknown);
    assert_eq!(StackStatus::RollbackFailed.name(), Some("ROLLBACK_FAILED"));
}
