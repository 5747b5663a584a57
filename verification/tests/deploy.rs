use static_site_deploy::deploy::{
    deadline_after, Action, Deployment, DeploymentTarget, Event, Phase, Step, UploadFailure,
    SETTLE_TIMEOUT_SECS,
};
use static_site_deploy::error::{Cause, Error};
use static_site_deploy::stack::{Parameter, StackOperation, StackOutput, StackRequest, StackStatus};
use static_site_deploy::upload::{DirEntry, PutObjectRequest};

const TEMPLATE: &str = "Resources: {}";

fn target() -> DeploymentTarget {
    DeploymentTarget {
        domain_name: "www".to_string(),
        domain_zone: "example.com".to_string(),
        deploy: "public".to_string(),
    }
}

fn cause(message: &str) -> Cause {
    Cause { message: message.to_string(), detail: format!("Detail({:?})", message) }
}

fn missing_stack() -> Event {
    Event::StackStatusRead(Err(cause("Stack with id StaticSite--www-example-com does not exist")))
}

fn zones() -> Event {
    Event::ZonesListed(Ok(vec!["/hostedzone/Z123".to_string()]))
}

fn outputs() -> Event {
    Event::StackOutputsRead(Ok(vec![
        StackOutput { key: "StaticWebsiteBucket".to_string(), value: "b1".to_string() },
        StackOutput { key: "Distribution".to_string(), value: "d1".to_string() },
    ]))
}

fn tree() -> Event {
    Event::DirectoryScanned(Ok(vec![
        DirEntry::File { name: "a.txt".to_string(), source: "public/a.txt".to_string() },
        DirEntry::Directory {
            name: "sub".to_string(),
            entries: vec![DirEntry::File {
                name: "b.txt".to_string(),
                source: "public/sub/b.txt".to_string(),
            }],
        },
    ]))
}

fn request(operation: StackOperation) -> StackRequest {
    StackRequest {
        operation,
        stack_name: "StaticSite--www-example-com".to_string(),
        template_body: TEMPLATE.to_string(),
        parameters: vec![
            Parameter { key: "HostedZoneId".to_string(), value: "Z123".to_string() },
            Parameter { key: "DomainName".to_string(), value: "www.example.com".to_string() },
        ],
    }
}

fn read_status() -> Action {
    Action::ReadStackStatus { stack_name: "StaticSite--www-example-com".to_string() }
}

fn put(source: &str, key: &str) -> Action {
    Action::PutObject(PutObjectRequest {
        source: source.to_string(),
        bucket: "b1".to_string(),
        key: key.to_string(),
        content_type: "text/plain".to_string(),
    })
}

/// Feeds the events in order and collects what is asked for after each.
fn feed(state: Deployment, events: Vec<Event>) -> (Deployment, Vec<Action>) {
    state.run(events)
}

fn started() -> Deployment {
    let (state, first) = Deployment::start(target(), TEMPLATE.to_string());
    assert_eq!(first, Action::VerifyAccess);
    assert_eq!(state.step, Step::VerifyingAccess);
    assert_eq!(state.phase(), Phase::Init);
    state
}

/// A deployment that has just asked for the first reading of the stack.
fn probing() -> Deployment {
    let (state, actions) = feed(started(), vec![Event::IdentityChecked(Ok(())), zones()]);
    assert_eq!(
        actions,
        vec![Action::ListZones { dns_name: "example.com".to_string() }, read_status()]
    );
    assert_eq!(state.step, Step::ProbingStack);
    state
}

/// A deployment that waits for its new stack to settle.
fn polling_stack() -> Deployment {
    let (state, _) =
        feed(probing(), vec![missing_stack(), Event::StackCreated(Ok("stack-1".to_string()))]);
    assert_eq!(state.step, Step::PollingStack);
    state
}

/// A deployment that is putting the first of two objects.
fn uploading() -> Deployment {
    let (state, _) = feed(
        polling_stack(),
        vec![Event::StackStatusRead(Ok(StackStatus::CreateComplete)), outputs(), tree()],
    );
    assert_eq!(state.step, Step::Uploading);
    state
}

fn no_remote_work(actions: &[Action]) -> bool {
    actions.iter().all(|a| matches!(a, Action::Stop | Action::Abort(_)))
}

#[test]
fn happy_path_runs_every_phase_in_order() {
    let transitioning = || Event::StackStatusRead(Ok(StackStatus::CreateInProgress));
    let events = vec![
        Event::IdentityChecked(Ok(())),
        zones(),
        missing_stack(),
        Event::StackCreated(Ok("stack-1".to_string())),
        transitioning(),
        Event::Slept,
        transitioning(),
        Event::Slept,
        transitioning(),
        Event::Slept,
        Event::StackStatusRead(Ok(StackStatus::CreateComplete)),
        outputs(),
        tree(),
        Event::ObjectPut(Ok(())),
        Event::ObjectPut(Ok(())),
        Event::InvalidationCreated(Ok("I1".to_string())),
        Event::InvalidationStatusRead(Ok("InProgress".to_string())),
        Event::Slept,
        Event::InvalidationStatusRead(Ok("Completed".to_string())),
        Event::Reported,
    ];
    let read_invalidation = || Action::ReadInvalidationStatus {
        distribution_id: "d1".to_string(),
        invalidation_id: "I1".to_string(),
    };
    let expected = vec![
        Action::ListZones { dns_name: "example.com".to_string() },
        read_status(),
        Action::SubmitStack(request(StackOperation::Create)),
        read_status(),
        Action::Sleep { seconds: 10 },
        read_status(),
        Action::Sleep { seconds: 10 },
        read_status(),
        Action::Sleep { seconds: 10 },
        read_status(),
        Action::ReadStackOutputs { stack_name: "StaticSite--www-example-com".to_string() },
        Action::ScanDirectory { path: "public".to_string() },
        put("public/a.txt", "a.txt"),
        put("public/sub/b.txt", "sub/b.txt"),
        Action::CreateInvalidation { distribution_id: "d1".to_string() },
        read_invalidation(),
        Action::Sleep { seconds: 10 },
        read_invalidation(),
        Action::Report { url: "https://www.example.com".to_string() },
        Action::Stop,
    ];
    let (state, actions) = feed(started(), events);
    assert_eq!(actions, expected);
    assert_eq!(state.step, Step::Done);
    assert_eq!(state.phase(), Phase::Done);
    assert_eq!(state.failure, None);
    assert_eq!(state.zone_id, "Z123");
    assert_eq!(state.bucket, "b1");
    assert_eq!(state.distribution_id, "d1");
    assert_eq!(state.invalidation_id, "I1");
}

#[test]
fn phases_follow_the_steps() {
    let mut state = started();
    let mut phases = vec![state.phase()];
    let events = vec![
        Event::IdentityChecked(Ok(())),
        zones(),
        missing_stack(),
        Event::StackCreated(Ok("stack-1".to_string())),
        Event::StackStatusRead(Ok(StackStatus::CreateComplete)),
        outputs(),
        tree(),
        Event::ObjectPut(Ok(())),
        Event::ObjectPut(Ok(())),
        Event::InvalidationCreated(Ok("I1".to_string())),
        Event::InvalidationStatusRead(Ok("Completed".to_string())),
        Event::Reported,
    ];
    for event in events {
        state = state.step(event).0;
        if phases.last() != Some(&state.phase()) {
            phases.push(state.phase());
        }
    }
    assert_eq!(
        phases,
        vec![
            Phase::Init,
            Phase::AccessVerified,
            Phase::ZoneResolved,
            Phase::StackReady,
            Phase::OutputsResolved,
            Phase::ContentUploaded,
            Phase::CacheInvalidated,
            Phase::Done,
        ]
    );
}

#[test]
fn apex_deployment_uses_the_zone_as_its_name() {
    let apex = DeploymentTarget {
        domain_name: String::new(),
        domain_zone: "example.com".to_string(),
        deploy: "public".to_string(),
    };
    let (state, _) = Deployment::start(apex, TEMPLATE.to_string());
    let (_, actions) = feed(state, vec![Event::IdentityChecked(Ok(())), zones(), missing_stack()]);
    assert_eq!(
        actions[1],
        Action::ReadStackStatus { stack_name: "StaticSite--example-com".to_string() }
    );
    match &actions[2] {
        Action::SubmitStack(request) => {
            assert_eq!(request.stack_name, "StaticSite--example-com");
            assert_eq!(request.parameters[1].value, "example.com");
        },
        other => panic!("expected a stack request, got {:?}", other),
    }
}

#[test]
fn broken_credentials_fail_before_anything_else() {
    let denied = cause("invalid token");
    let (state, action) = started().step(Event::IdentityChecked(Err(denied.clone())));
    let error = Error::GetCallerIdentityError { source: denied };
    assert_eq!(action, Action::Abort(error.clone()));
    assert_eq!(state.step, Step::Failed);
    assert_eq!(state.phase(), Phase::Failed);
    assert_eq!(state.failure, Some(error));
}

#[test]
fn zone_lookup_with_zero_matches_fails_and_attempts_no_stack_operation() {
    let (state, actions) = feed(
        started(),
        vec![
            Event::IdentityChecked(Ok(())),
            Event::ZonesListed(Ok(Vec::new())),
            missing_stack(),
            Event::StackCreated(Ok("stack-1".to_string())),
            Event::Slept,
        ],
    );
    assert_eq!(actions[1], Action::Abort(Error::ZoneNotFound));
    assert_eq!(actions[2..], [Action::Stop, Action::Stop, Action::Stop]);
    assert!(no_remote_work(&actions[1..]));
    assert_eq!(state.step, Step::Failed);
    assert_eq!(state.failure, Some(Error::ZoneNotFound));
    assert_eq!(Error::ZoneNotFound.message(), "No hosted zone found for the domain zone");
}

#[test]
fn create_is_issued_when_the_probe_finds_no_stack() {
    let (state, action) = probing().step(missing_stack());
    assert_eq!(action, Action::SubmitStack(request(StackOperation::Create)));
    assert_eq!(state.step, Step::CreatingStack);
}

#[test]
fn update_is_issued_when_the_probe_finds_a_usable_stack() {
    for status in
        [StackStatus::CreateComplete, StackStatus::UpdateComplete, StackStatus::UpdateRollbackComplete]
    {
        let (state, action) = probing().step(Event::StackStatusRead(Ok(status)));
        assert_eq!(action, Action::SubmitStack(request(StackOperation::Update)));
        assert_eq!(state.step, Step::UpdatingStack);
    }
}

#[test]
fn an_unusable_stack_stops_the_run_at_the_probe() {
    let (state, action) = probing().step(Event::StackStatusRead(Ok(StackStatus::UpdateInProgress)));
    assert_eq!(action, Action::Abort(Error::UnusableStackStatus));
    assert_eq!(state.step, Step::Failed);
    let failure = cause("throttled");
    let (_, action) = probing().step(Event::StackStatusRead(Err(failure.clone())));
    assert_eq!(action, Action::Abort(Error::DescribeStacksError { source: failure }));
}

fn updating() -> Deployment {
    let (state, _) = probing().step(Event::StackStatusRead(Ok(StackStatus::UpdateComplete)));
    state
}

#[test]
fn update_with_no_changes_goes_on_to_the_wait() {
    let nothing = Cause {
        message: "service error".to_string(),
        detail: "ValidationError: No updates are to be performed.".to_string(),
    };
    let (state, action) = updating().step(Event::StackUpdated(Err(nothing)));
    assert_eq!(action, read_status());
    assert_eq!(state.step, Step::PollingStack);
    let (state, action) = updating().step(Event::StackUpdated(Ok(())));
    assert_eq!(action, read_status());
    assert_eq!(state.step, Step::PollingStack);
}

#[test]
fn other_update_errors_stop_the_run() {
    let refused = cause("template invalid");
    let (state, action) = updating().step(Event::StackUpdated(Err(refused.clone())));
    assert_eq!(action, Action::Abort(Error::UpdateStackError { source: refused }));
    assert_eq!(state.step, Step::Failed);
}

#[test]
fn a_refused_create_stops_the_run() {
    let (creating, _) = probing().step(missing_stack());
    let refused = cause("limit exceeded");
    let (state, action) = creating.step(Event::StackCreated(Err(refused.clone())));
    assert_eq!(action, Action::Abort(Error::CreateStackError { source: refused }));
    assert_eq!(state.step, Step::Failed);
}

#[test]
fn transitioning_then_success_sleeps_exactly_once() {
    let (state, actions) = feed(
        polling_stack(),
        vec![
            Event::StackStatusRead(Ok(StackStatus::CreateInProgress)),
            Event::Slept,
            Event::StackStatusRead(Ok(StackStatus::CreateComplete)),
        ],
    );
    let sleeps = actions.iter().filter(|a| matches!(a, Action::Sleep { .. })).count();
    assert_eq!(sleeps, 1);
    assert_eq!(
        actions,
        vec![
            Action::Sleep { seconds: 10 },
            read_status(),
            Action::ReadStackOutputs { stack_name: "StaticSite--www-example-com".to_string() },
        ]
    );
    assert_eq!(state.step, Step::ReadingOutputs);
    assert_eq!(state.phase(), Phase::StackReady);
}

#[test]
fn a_failure_status_fails_the_wait_without_a_sleep() {
    let (state, action) =
        polling_stack().step(Event::StackStatusRead(Ok(StackStatus::RollbackInProgress)));
    assert_eq!(action, Action::Abort(Error::UnusableStackStatus));
    assert_eq!(state.step, Step::Failed);
}

#[test]
fn a_failed_poll_is_not_retried() {
    let failure = cause("connection reset");
    let (state, action) = polling_stack().step(Event::StackStatusRead(Err(failure.clone())));
    assert_eq!(action, Action::Abort(Error::DescribeStacksError { source: failure }));
    assert_eq!(state.step, Step::Failed);
}

#[test]
fn stack_wait_timeout_fails_the_run_and_attempts_no_upload() {
    let elapsed = cause("deadline has elapsed");
    let (state, actions) = feed(
        polling_stack(),
        vec![
            Event::StackStatusRead(Ok(StackStatus::CreateInProgress)),
            Event::TimedOut(elapsed.clone()),
            Event::Slept,
            Event::StackStatusRead(Ok(StackStatus::CreateComplete)),
            outputs(),
            tree(),
            Event::ObjectPut(Ok(())),
        ],
    );
    let error = Error::TimedOut { source: elapsed };
    assert_eq!(actions[0], Action::Sleep { seconds: 10 });
    assert_eq!(actions[1], Action::Abort(error.clone()));
    assert!(actions[2..].iter().all(|a| *a == Action::Stop));
    assert!(!actions.iter().any(|a| matches!(a, Action::PutObject(_))));
    assert_eq!(state.step, Step::Failed);
    assert_eq!(state.failure, Some(error.clone()));
    assert_eq!(error.message(), "Timed out");
    assert_ne!(error, Error::UnusableStackStatus);
}

#[test]
fn timeout_during_a_poll_fails_the_run_too() {
    let elapsed = cause("deadline has elapsed");
    let (state, action) = polling_stack().step(Event::TimedOut(elapsed.clone()));
    assert_eq!(action, Action::Abort(Error::TimedOut { source: elapsed }));
    assert_eq!(state.step, Step::Failed);
}

#[test]
fn only_the_two_waits_have_a_limit() {
    assert_eq!(SETTLE_TIMEOUT_SECS, 15 * 60);
    assert_eq!(started().wait_limit_secs(), None);
    assert_eq!(probing().wait_limit_secs(), None);
    assert_eq!(polling_stack().wait_limit_secs(), Some(900));
    let (pausing, _) =
        polling_stack().step(Event::StackStatusRead(Ok(StackStatus::CreateInProgress)));
    assert_eq!(pausing.step, Step::PausingForStack);
    assert_eq!(pausing.wait_limit_secs(), Some(900));
    assert_eq!(uploading().wait_limit_secs(), None);
    let (state, _) = feed(
        uploading(),
        vec![
            Event::ObjectPut(Ok(())),
            Event::ObjectPut(Ok(())),
            Event::InvalidationCreated(Ok("I1".to_string())),
        ],
    );
    assert_eq!(state.step, Step::PollingInvalidation);
    assert_eq!(state.wait_limit_secs(), Some(900));
    let (state, _) = state.step(Event::InvalidationStatusRead(Ok("InProgress".to_string())));
    assert_eq!(state.step, Step::PausingForInvalidation);
    assert_eq!(state.wait_limit_secs(), Some(900));
}

#[test]
fn a_missing_output_stops_the_run() {
    let (reading, _) =
        polling_stack().step(Event::StackStatusRead(Ok(StackStatus::CreateComplete)));
    let only_bucket = Event::StackOutputsRead(Ok(vec![StackOutput {
        key: "StaticWebsiteBucket".to_string(),
        value: "b1".to_string(),
    }]));
    let (state, action) = reading.step(only_bucket);
    assert_eq!(action, Action::Abort(Error::StackOutputNotFound));
    assert_eq!(state.step, Step::Failed);
    assert_eq!(state.bucket, "");
}

#[test]
fn an_unreadable_directory_stops_the_run() {
    let (state, _) = feed(
        polling_stack(),
        vec![Event::StackStatusRead(Ok(StackStatus::CreateComplete)), outputs()],
    );
    assert_eq!(state.step, Step::ScanningDirectory);
    let failure = cause("No such file or directory");
    let (state, action) = state.step(Event::DirectoryScanned(Err(failure.clone())));
    assert_eq!(action, Action::Abort(Error::IOError { source: failure }));
    assert_eq!(state.step, Step::Failed);
}

#[test]
fn an_empty_directory_goes_straight_to_the_invalidation() {
    let (state, _) = feed(
        polling_stack(),
        vec![Event::StackStatusRead(Ok(StackStatus::CreateComplete)), outputs()],
    );
    let (state, action) = state.step(Event::DirectoryScanned(Ok(Vec::new())));
    assert_eq!(action, Action::CreateInvalidation { distribution_id: "d1".to_string() });
    assert_eq!(state.step, Step::RequestingInvalidation);
    assert!(state.uploads.is_empty());
}

#[test]
fn the_first_failed_upload_aborts_the_rest() {
    let state = uploading();
    assert_eq!(state.uploads.len(), 2);
    assert_eq!(state.next_upload, 0);
    let refused = cause("access denied");
    let (state, actions) = feed(
        state,
        vec![
            Event::ObjectPut(Err(UploadFailure::Put(refused.clone()))),
            Event::ObjectPut(Ok(())),
        ],
    );
    assert_eq!(
        actions,
        vec![Action::Abort(Error::PutObjectError { source: refused }), Action::Stop]
    );
    assert_eq!(state.step, Step::Failed);
    let unreadable = cause("permission denied");
    let (_, action) =
        uploading().step(Event::ObjectPut(Err(UploadFailure::Stream(unreadable.clone()))));
    assert_eq!(action, Action::Abort(Error::UploadStreamError { source: unreadable }));
}

#[test]
fn uploads_go_one_by_one_in_plan_order() {
    let (state, action) = uploading().step(Event::ObjectPut(Ok(())));
    assert_eq!(action, put("public/sub/b.txt", "sub/b.txt"));
    assert_eq!(state.next_upload, 1);
    assert_eq!(state.step, Step::Uploading);
    let (state, action) = state.step(Event::ObjectPut(Ok(())));
    assert_eq!(action, Action::CreateInvalidation { distribution_id: "d1".to_string() });
    assert_eq!(state.phase(), Phase::ContentUploaded);
}

#[test]
fn invalidation_errors_stop_the_run() {
    let (requesting, _) =
        feed(uploading(), vec![Event::ObjectPut(Ok(())), Event::ObjectPut(Ok(()))]);
    assert_eq!(requesting.step, Step::RequestingInvalidation);
    let refused = cause("too many invalidations");
    let (state, action) = requesting.step(Event::InvalidationCreated(Err(refused.clone())));
    assert_eq!(action, Action::Abort(Error::CreateInvalidationError { source: refused }));
    assert_eq!(state.step, Step::Failed);

    let (polling, _) = feed(
        uploading(),
        vec![
            Event::ObjectPut(Ok(())),
            Event::ObjectPut(Ok(())),
            Event::InvalidationCreated(Ok("I1".to_string())),
        ],
    );
    let failure = cause("no such invalidation");
    let (state, action) = polling.step(Event::InvalidationStatusRead(Err(failure.clone())));
    assert_eq!(action, Action::Abort(Error::GetInvalidationError { source: failure }));
    assert_eq!(state.step, Step::Failed);
}

#[test]
fn invalidation_wait_timeout_fails_the_run() {
    let (state, _) = feed(
        uploading(),
        vec![
            Event::ObjectPut(Ok(())),
            Event::ObjectPut(Ok(())),
            Event::InvalidationCreated(Ok("I1".to_string())),
            Event::InvalidationStatusRead(Ok("InProgress".to_string())),
        ],
    );
    let elapsed = cause("deadline has elapsed");
    let (state, action) = state.step(Event::TimedOut(elapsed.clone()));
    assert_eq!(action, Action::Abort(Error::TimedOut { source: elapsed }));
    assert_eq!(state.step, Step::Failed);
}

#[test]
fn an_answer_that_was_not_asked_for_fails_the_run() {
    let (state, action) = started().step(zones());
    assert_eq!(action, Action::Abort(Error::UnexpectedEvent));
    assert_eq!(state.step, Step::Failed);
    let (state, action) = probing().step(Event::TimedOut(cause("deadline has elapsed")));
    assert_eq!(action, Action::Abort(Error::UnexpectedEvent));
    assert_eq!(state.step, Step::Failed);
    let (state, action) = uploading().step(Event::Slept);
    assert_eq!(action, Action::Abort(Error::UnexpectedEvent));
    assert_eq!(state.step, Step::Failed);
}

#[test]
fn a_finished_run_stays_finished() {
    let (state, actions) = feed(
        uploading(),
        vec![
            Event::ObjectPut(Ok(())),
            Event::ObjectPut(Ok(())),
            Event::InvalidationCreated(Ok("I1".to_string())),
            Event::InvalidationStatusRead(Ok("Completed".to_string())),
            Event::Reported,
            Event::Slept,
            zones(),
        ],
    );
    assert_eq!(actions[3], Action::Report { url: "https://www.example.com".to_string() });
    assert_eq!(actions[4..], [Action::Stop, Action::Stop, Action::Stop]);
    assert_eq!(state.step, Step::Done);
    assert_eq!(state.failure, None);
}

#[test]
fn run_is_step_after_step() {
    let events = || {
        vec![
            Event::IdentityChecked(Ok(())),
            zones(),
            missing_stack(),
            Event::StackCreated(Ok("stack-1".to_string())),
            Event::StackStatusRead(Ok(StackStatus::CreateInProgress)),
        ]
    };
    let mut state = started();
    let mut stepped = Vec::new();
    for event in events() {
        let (next, action) = state.step(event);
        state = next;
        stepped.push(action);
    }
    let (ran, actions) = started().run(events());
    assert_eq!(actions, stepped);
    assert_eq!(ran, state);
    let (idle, none) = started().run(Vec::new());
    assert_eq!(idle, started());
    assert!(none.is_empty());
}

fn stack_asked_for(domain_name: &str, domain_zone: &str) -> String {
    let site = DeploymentTarget {
        domain_name: domain_name.to_string(),
        domain_zone: domain_zone.to_string(),
        deploy: "public".to_string(),
    };
    let (state, _) = Deployment::start(site, TEMPLATE.to_string());
    let (_, actions) = state.run(vec![Event::IdentityChecked(Ok(())), zones()]);
    match &actions[1] {
        Action::ReadStackStatus { stack_name } => stack_name.clone(),
        other => panic!("expected a reading of the stack, got {:?}", other),
    }
}

#[test]
fn runs_for_different_sites_ask_for_different_stacks() {
    assert_eq!(stack_asked_for("a", "b.com"), "StaticSite--a-b-com");
    assert_eq!(stack_asked_for("", "a-b.com"), "StaticSite--a--b-com");
    assert_ne!(stack_asked_for("a", "b.com"), stack_asked_for("", "a-b.com"));
    assert_eq!(stack_asked_for("a", "b.com"), stack_asked_for("a", "b.com"));
    assert_eq!(stack_asked_for("a", "b.com"), stack_asked_for("", "a.b.com"));
}

#[test]
fn a_deadline_is_set_once_per_wait() {
    assert_eq!(deadline_after(None, None, 5), None);
    assert_eq!(deadline_after(None, Some(905), 40), None);
    assert_eq!(deadline_after(Some(900), None, 5), Some(905));
    assert_eq!(deadline_after(Some(900), Some(905), 40), Some(905));
    assert_eq!(deadline_after(Some(900), Some(905), 2000), Some(905));
    assert_eq!(deadline_after(Some(900), None, u64::MAX - 10), Some(u64::MAX));
    assert_eq!(deadline_after(Some(0), None, 7), Some(7));
}

#[test]
fn each_wait_gets_its_own_deadline() {
    let mut state = started();
    let mut running = None;
    let mut seen = Vec::new();
    let events = vec![
        Event::IdentityChecked(Ok(())),
        zones(),
        missing_stack(),
        Event::StackCreated(Ok("stack-1".to_string())),
        Event::StackStatusRead(Ok(StackStatus::CreateInProgress)),
        Event::Slept,
        Event::StackStatusRead(Ok(StackStatus::CreateComplete)),
        outputs(),
        tree(),
        Event::ObjectPut(Ok(())),
        Event::ObjectPut(Ok(())),
        Event::InvalidationCreated(Ok("I1".to_string())),
        Event::InvalidationStatusRead(Ok("InProgress".to_string())),
        Event::Slept,
        Event::InvalidationStatusRead(Ok("Completed".to_string())),
    ];
    let mut now = 0;
    for event in events {
        now += 100;
        state = state.step(event).0;
        running = deadline_after(state.wait_limit_secs(), running, now);
        seen.push(running);
    }
    assert_eq!(
        seen,
        vec![
            None,
            None,
            None,
            Some(1300),
            Some(1300),
            Some(1300),
            None,
            None,
            None,
            None,
            None,
            Some(2100),
            Some(2100),
            Some(2100),
            None,
        ]
    );
}
