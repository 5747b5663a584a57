//! The orchestrator: one deployment as a state machine.
//!
//! The machine never calls a remote service itself. Each step hands out the
//! next piece of outside work as an [`Action`] and takes that work's result
//! back as an [`Event`]. The steps run in one fixed order, and the first
//! failure ends the run.

use vstd::prelude::*;
use crate::error::{call_failed, unusable_state, Cause, Error, ErrorKind, ErrorView};
use crate::invalidation::{
    invalidation_outcome, invalidation_wait_decision, wait_for_invalidation,
};
use crate::poller::{PollOutcome, PollOutcomeView, POLL_INTERVAL_SECS};
use crate::stack::{
    create_stack, create_stack_outcome, get_stack_output, in_failure_set, in_success_set,
    output_result, probe_result, stack_exists_and_is_complete, stack_request,
    stack_wait_decision, update_result, update_stack, update_stack_outcome, wait_for_stack,
    StackOperation, StackOutput, StackRequest, StackRequestView, StackStatus,
};
use crate::target::{
    fqdn, fqdn_of, is_domain_name, lemma_stack_name_injective, site_url, site_url_of, stack_name,
    stack_name_of,
};
use crate::upload::{
    request_views, upload_directory, upload_plan, DirEntry, PutObjectRequest,
    PutObjectRequestView,
};
use crate::zone::{find_zone, zone_not_found, zone_result};

verus! {

/// Seconds that each settlement wait may take as a whole.
pub const SETTLE_TIMEOUT_SECS: u64 = 900;

/// What is deployed, and from where.
#[derive(Clone, Debug, PartialEq, Eq)]
pub struct DeploymentTarget {
    /// The host label within the zone; empty to deploy to the zone's apex.
    pub domain_name: String,
    /// The name of the DNS zone to deploy into.
    pub domain_zone: String,
    /// The local directory whose content becomes the site.
    pub deploy: String,
}

/// The mathematical value of a [`DeploymentTarget`].
pub struct TargetView {
    pub domain_name: Seq<char>,
    pub domain_zone: Seq<char>,
    pub deploy: Seq<char>,
}

impl View for DeploymentTarget {
    type V = TargetView;

    open spec fn view(&self) -> TargetView {
        TargetView {
            domain_name: self.domain_name@,
            domain_zone: self.domain_zone@,
            deploy: self.deploy@,
        }
    }
}

/// How far a deployment has come.
#[derive(Clone, Copy, Debug, PartialEq, Eq, Structural)]
pub enum Phase {
    Init,
    AccessVerified,
    ZoneResolved,
    StackReady,
    OutputsResolved,
    ContentUploaded,
    CacheInvalidated,
    Done,
    Failed,
}

/// What a deployment is waiting for.
#[derive(Clone, Copy, Debug, PartialEq, Eq, Structural)]
pub enum Step {
    /// The identity check is out.
    VerifyingAccess,
    /// The zone lookup is out.
    ResolvingZone,
    /// The first reading of the stack is out.
    ProbingStack,
    /// The create request is out.
    CreatingStack,
    /// The update request is out.
    UpdatingStack,
    /// A reading of the stack is out, while it settles.
    PollingStack,
    /// Sleeping between two readings of the stack.
    PausingForStack,
    /// The reading of the stack's outputs is out.
    ReadingOutputs,
    /// The local directory is being read.
    ScanningDirectory,
    /// One object is being put.
    Uploading,
    /// The invalidation request is out.
    RequestingInvalidation,
    /// A reading of the invalidation is out.
    PollingInvalidation,
    /// Sleeping between two readings of the invalidation.
    PausingForInvalidation,
    /// The site's address is being reported.
    Reporting,
    /// The run succeeded.
    Done,
    /// The run failed.
    Failed,
}

/// Why putting one object failed.
#[derive(Clone, Debug, PartialEq, Eq)]
pub enum UploadFailure {
    /// The file could not be opened as a byte stream.
    Stream(Cause),
    /// The storage provider rejected the object.
    Put(Cause),
}

/// The result of a piece of outside work.
#[derive(Debug, PartialEq, Eq)]
pub enum Event {
    /// The identity check came back.
    IdentityChecked(Result<(), Cause>),
    /// The zone lookup came back, with the full identifiers of the zones found.
    ZonesListed(Result<Vec<String>, Cause>),
    /// A reading of the stack came back, with its status.
    StackStatusRead(Result<StackStatus, Cause>),
    /// The create request came back, with the new stack's identifier.
    StackCreated(Result<String, Cause>),
    /// The update request came back.
    StackUpdated(Result<(), Cause>),
    /// A sleep is over.
    Slept,
    /// A reading of the stack came back, with its outputs.
    StackOutputsRead(Result<Vec<StackOutput>, Cause>),
    /// The local directory was read.
    DirectoryScanned(Result<Vec<DirEntry>, Cause>),
    /// One object was put.
    ObjectPut(Result<(), UploadFailure>),
    /// The invalidation request came back, with the invalidation's identifier.
    InvalidationCreated(Result<String, Cause>),
    /// A reading of the invalidation came back, with its status.
    InvalidationStatusRead(Result<String, Cause>),
    /// The site's address was reported.
    Reported,
    /// The wait that is going on has taken longer than its limit.
    TimedOut(Cause),
}

/// A piece of outside work to do next.
#[derive(Clone, Debug, PartialEq, Eq)]
pub enum Action {
    /// Check that the credentials work.
    VerifyAccess,
    /// Look the zone up by its name.
    ListZones { dns_name: String },
    /// Describe the stack and hand back its status.
    ReadStackStatus { stack_name: String },
    /// Send a create or update request.
    SubmitStack(StackRequest),
    /// Sleep.
    Sleep { seconds: u64 },
    /// Describe the stack and hand back its outputs.
    ReadStackOutputs { stack_name: String },
    /// Read the directory tree to deploy.
    ScanDirectory { path: String },
    /// Put one object.
    PutObject(PutObjectRequest),
    /// Invalidate the whole content of the distribution.
    CreateInvalidation { distribution_id: String },
    /// Read the invalidation's status.
    ReadInvalidationStatus { distribution_id: String, invalidation_id: String },
    /// Report the address of the site, which is live.
    Report { url: String },
    /// Report the failure and end the run unsuccessfully.
    Abort(Error),
    /// Nothing is left to do.
    Stop,
}

/// The mathematical value of an [`Action`].
pub enum ActionView {
    VerifyAccess,
    ListZones { dns_name: Seq<char> },
    ReadStackStatus { stack_name: Seq<char> },
    SubmitStack(StackRequestView),
    Sleep { seconds: u64 },
    ReadStackOutputs { stack_name: Seq<char> },
    ScanDirectory { path: Seq<char> },
    PutObject(PutObjectRequestView),
    CreateInvalidation { distribution_id: Seq<char> },
    ReadInvalidationStatus { distribution_id: Seq<char>, invalidation_id: Seq<char> },
    Report { url: Seq<char> },
    Abort(ErrorView),
    Stop,
}

impl View for Action {
    type V = ActionView;

    open spec fn view(&self) -> ActionView {
        match self {
            Action::VerifyAccess => ActionView::VerifyAccess,
            Action::ListZones { dns_name } => ActionView::ListZones { dns_name: dns_name@ },
            Action::ReadStackStatus { stack_name } => ActionView::ReadStackStatus {
                stack_name: stack_name@,
            },
            Action::SubmitStack(request) => ActionView::SubmitStack(request@),
            Action::Sleep { seconds } => ActionView::Sleep { seconds: *seconds },
            Action::ReadStackOutputs { stack_name } => ActionView::ReadStackOutputs {
                stack_name: stack_name@,
            },
            Action::ScanDirectory { path } => ActionView::ScanDirectory { path: path@ },
            Action::PutObject(request) => ActionView::PutObject(request@),
            Action::CreateInvalidation { distribution_id } => ActionView::CreateInvalidation {
                distribution_id: distribution_id@,
            },
            Action::ReadInvalidationStatus {
                distribution_id,
                invalidation_id,
            } => ActionView::ReadInvalidationStatus {
                distribution_id: distribution_id@,
                invalidation_id: invalidation_id@,
            },
            Action::Report { url } => ActionView::Report { url: url@ },
            Action::Abort(error) => ActionView::Abort(error@),
            Action::Stop => ActionView::Stop,
        }
    }
}

/// One deployment in progress.
#[derive(Debug, PartialEq, Eq)]
pub struct Deployment {
    pub target: DeploymentTarget,
    /// The infrastructure template, handed on as it is.
    pub template: String,
    pub step: Step,
    /// The zone's identifier, once resolved.
    pub zone_id: String,
    /// The storage bucket's name, once the stack's outputs are read.
    pub bucket: String,
    /// The distribution's identifier, once the stack's outputs are read.
    pub distribution_id: String,
    /// The objects to put, once the directory is read.
    pub uploads: Vec<PutObjectRequest>,
    /// The index in `uploads` of the object being put.
    pub next_upload: usize,
    /// The invalidation's identifier, once it is requested.
    pub invalidation_id: String,
    /// Why the run failed, once it has.
    pub failure: Option<Error>,
}

/// The mathematical value of a [`Deployment`].
pub struct DeploymentView {
    pub target: TargetView,
    pub template: Seq<char>,
    pub step: Step,
    pub zone_id: Seq<char>,
    pub bucket: Seq<char>,
    pub distribution_id: Seq<char>,
    pub uploads: Seq<PutObjectRequestView>,
    pub next_upload: nat,
    pub invalidation_id: Seq<char>,
    pub failure: Option<ErrorView>,
}

impl View for Deployment {
    type V = DeploymentView;

    open spec fn view(&self) -> DeploymentView {
        DeploymentView {
            target: self.target@,
            template: self.template@,
            step: self.step,
            zone_id: self.zone_id@,
            bucket: self.bucket@,
            distribution_id: self.distribution_id@,
            uploads: request_views(self.uploads@),
            next_upload: self.next_upload as nat,
            invalidation_id: self.invalidation_id@,
            failure: match self.failure {
                Some(error) => Some(error@),
                None => None,
            },
        }
    }
}

/// The phase that a step belongs to.
pub open spec fn phase_of(step: Step) -> Phase {
    match step {
        Step::VerifyingAccess => Phase::Init,
        Step::ResolvingZone => Phase::AccessVerified,
        Step::ProbingStack
        | Step::CreatingStack
        | Step::UpdatingStack
        | Step::PollingStack
        | Step::PausingForStack => Phase::ZoneResolved,
        Step::ReadingOutputs => Phase::StackReady,
        Step::ScanningDirectory | Step::Uploading => Phase::OutputsResolved,
        Step::RequestingInvalidation
        | Step::PollingInvalidation
        | Step::PausingForInvalidation => Phase::ContentUploaded,
        Step::Reporting => Phase::CacheInvalidated,
        Step::Done => Phase::Done,
        Step::Failed => Phase::Failed,
    }
}

/// The place of a phase in the order of a run that succeeds.
pub open spec fn phase_rank(phase: Phase) -> int {
    match phase {
        Phase::Init => 0,
        Phase::AccessVerified => 1,
        Phase::ZoneResolved => 2,
        Phase::StackReady => 3,
        Phase::OutputsResolved => 4,
        Phase::ContentUploaded => 5,
        Phase::CacheInvalidated => 6,
        Phase::Done => 7,
        Phase::Failed => 8,
    }
}

/// The limit, in seconds, of the wait that a step is part of: the wait for
/// the stack and the wait for the invalidation are each bounded, and no
/// other step is.
pub open spec fn wait_limit(step: Step) -> Option<u64> {
    match step {
        Step::PollingStack
        | Step::PausingForStack
        | Step::PollingInvalidation
        | Step::PausingForInvalidation => Some(SETTLE_TIMEOUT_SECS),
        _ => None,
    }
}

/// When the wait that is going on must be over, in seconds on the clock of
/// whoever runs the machine. A wait's deadline is set at its first step, one
/// limit after `now_secs`, and kept through all its later steps; outside a
/// wait there is none. A deadline beyond the clock's range is its last second.
pub open spec fn deadline(limit: Option<u64>, running: Option<u64>, now_secs: u64) -> Option<u64> {
    match limit {
        None => None,
        Some(seconds) => match running {
            Some(set) => Some(set),
            None => Some(
                if now_secs + seconds > u64::MAX {
                    u64::MAX
                } else {
                    (now_secs + seconds) as u64
                },
            ),
        },
    }
}

/// The site's domain name.
pub open spec fn site_fqdn(target: TargetView) -> Seq<char> {
    fqdn_of(target.domain_name, target.domain_zone)
}

/// The name of the site's stack.
pub open spec fn site_stack(target: TargetView) -> Seq<char> {
    stack_name_of(site_fqdn(target))
}

/// The deployment before anything has come back.
pub open spec fn initial(target: TargetView, template: Seq<char>) -> DeploymentView {
    DeploymentView {
        target,
        template,
        step: Step::VerifyingAccess,
        zone_id: Seq::empty(),
        bucket: Seq::empty(),
        distribution_id: Seq::empty(),
        uploads: Seq::empty(),
        next_upload: 0,
        invalidation_id: Seq::empty(),
        failure: None,
    }
}

/// The error for an event that the current step does not wait for.
pub open spec fn unexpected_event() -> ErrorView {
    ErrorView { kind: ErrorKind::UnexpectedEvent, source: None }
}

/// The run fails with `error`.
pub open spec fn failed(state: DeploymentView, error: ErrorView) -> (DeploymentView, ActionView) {
    (DeploymentView { step: Step::Failed, failure: Some(error), ..state }, ActionView::Abort(error))
}

/// The run goes on to `step` with `action`.
pub open spec fn proceed(state: DeploymentView, step: Step, action: ActionView) -> (
    DeploymentView,
    ActionView,
) {
    (DeploymentView { step, ..state }, action)
}

/// The action that reads the stack's status.
pub open spec fn read_stack_status(state: DeploymentView) -> ActionView {
    ActionView::ReadStackStatus { stack_name: site_stack(state.target) }
}

/// The action that reads the invalidation's status.
pub open spec fn read_invalidation_status(state: DeploymentView) -> ActionView {
    ActionView::ReadInvalidationStatus {
        distribution_id: state.distribution_id,
        invalidation_id: state.invalidation_id,
    }
}

/// After the identity check: look the zone up.
pub open spec fn after_identity(state: DeploymentView, event: Event) -> (
    DeploymentView,
    ActionView,
) {
    match event {
        Event::IdentityChecked(Ok(_)) => proceed(
            state,
            Step::ResolvingZone,
            ActionView::ListZones { dns_name: state.target.domain_zone },
        ),
        Event::IdentityChecked(Err(cause)) => failed(
            state,
            call_failed(ErrorKind::GetCallerIdentityError, cause@),
        ),
        _ => failed(state, unexpected_event()),
    }
}

/// After the zone lookup: keep the zone's identifier and probe the stack.
pub open spec fn after_zones(state: DeploymentView, event: Event) -> (DeploymentView, ActionView) {
    match event {
        Event::ZonesListed(listed) => match zone_result(listed) {
            Ok(zone_id) => proceed(
                DeploymentView { zone_id, ..state },
                Step::ProbingStack,
                read_stack_status(state),
            ),
            Err(error) => failed(state, error),
        },
        _ => failed(state, unexpected_event()),
    }
}

/// The request that creates or updates the site's stack.
pub open spec fn site_stack_request(
    state: DeploymentView,
    operation: StackOperation,
) -> StackRequestView {
    stack_request(
        operation,
        site_stack(state.target),
        state.template,
        state.zone_id,
        site_fqdn(state.target),
    )
}

/// After the probe: create the stack when there is none, update it when it
/// is there and usable.
pub open spec fn after_probe(state: DeploymentView, event: Event) -> (DeploymentView, ActionView) {
    match event {
        Event::StackStatusRead(observed) => match probe_result(observed) {
            Ok(exists) => if exists {
                proceed(
                    state,
                    Step::UpdatingStack,
                    ActionView::SubmitStack(site_stack_request(state, StackOperation::Update)),
                )
            } else {
                proceed(
                    state,
                    Step::CreatingStack,
                    ActionView::SubmitStack(site_stack_request(state, StackOperation::Create)),
                )
            },
            Err(error) => failed(state, error),
        },
        _ => failed(state, unexpected_event()),
    }
}

/// After the create request was answered: wait for the stack to settle.
pub open spec fn after_create(state: DeploymentView, event: Event) -> (DeploymentView, ActionView) {
    match event {
        Event::StackCreated(Ok(_)) => proceed(state, Step::PollingStack, read_stack_status(state)),
        Event::StackCreated(Err(cause)) => failed(
            state,
            call_failed(ErrorKind::CreateStackError, cause@),
        ),
        _ => failed(state, unexpected_event()),
    }
}

/// After the update request was answered: wait for the stack to settle.
pub open spec fn after_update(state: DeploymentView, event: Event) -> (DeploymentView, ActionView) {
    match event {
        Event::StackUpdated(response) => match update_result(response) {
            Ok(_) => proceed(state, Step::PollingStack, read_stack_status(state)),
            Err(error) => failed(state, error),
        },
        _ => failed(state, unexpected_event()),
    }
}

/// The error for a wait that took longer than its limit.
pub open spec fn timed_out(cause: Cause) -> ErrorView {
    call_failed(ErrorKind::TimedOut, cause@)
}

/// After a reading of the stack while it settles.
pub open spec fn after_stack_poll(state: DeploymentView, event: Event) -> (
    DeploymentView,
    ActionView,
) {
    match event {
        Event::StackStatusRead(observed) => match stack_wait_decision(observed) {
            PollOutcomeView::Settled => proceed(
                state,
                Step::ReadingOutputs,
                ActionView::ReadStackOutputs { stack_name: site_stack(state.target) },
            ),
            PollOutcomeView::Failed(error) => failed(state, error),
            PollOutcomeView::Retry { after_secs } => proceed(
                state,
                Step::PausingForStack,
                ActionView::Sleep { seconds: after_secs },
            ),
        },
        Event::TimedOut(cause) => failed(state, timed_out(cause)),
        _ => failed(state, unexpected_event()),
    }
}

/// After a sleep between two readings of the stack.
pub open spec fn after_stack_pause(state: DeploymentView, event: Event) -> (
    DeploymentView,
    ActionView,
) {
    match event {
        Event::Slept => proceed(state, Step::PollingStack, read_stack_status(state)),
        Event::TimedOut(cause) => failed(state, timed_out(cause)),
        _ => failed(state, unexpected_event()),
    }
}

/// The name of the stack output that holds the bucket's name.
pub open spec fn bucket_output() -> Seq<char> {
    "StaticWebsiteBucket"@
}

/// The name of the stack output that holds the distribution's identifier.
pub open spec fn distribution_output() -> Seq<char> {
    "Distribution"@
}

/// After the stack's outputs were read: keep the bucket and the
/// distribution, and read the directory.
pub open spec fn after_outputs(state: DeploymentView, event: Event) -> (
    DeploymentView,
    ActionView,
) {
    match event {
        Event::StackOutputsRead(described) => match output_result(described, bucket_output()) {
            Ok(bucket) => match output_result(described, distribution_output()) {
                Ok(distribution_id) => proceed(
                    DeploymentView { bucket, distribution_id, ..state },
                    Step::ScanningDirectory,
                    ActionView::ScanDirectory { path: state.target.deploy },
                ),
                Err(error) => failed(state, error),
            },
            Err(error) => failed(state, error),
        },
        _ => failed(state, unexpected_event()),
    }
}

/// The step that asks for the cache to be invalidated.
pub open spec fn request_invalidation(state: DeploymentView) -> (DeploymentView, ActionView) {
    proceed(
        state,
        Step::RequestingInvalidation,
        ActionView::CreateInvalidation { distribution_id: state.distribution_id },
    )
}

/// After the directory was read: plan the uploads and put the first object,
/// or go straight on when there is nothing to put.
pub open spec fn after_scan(state: DeploymentView, event: Event) -> (DeploymentView, ActionView) {
    match event {
        Event::DirectoryScanned(Ok(entries)) => {
            let uploads = upload_plan(entries@, state.bucket);
            let planned = DeploymentView { uploads, next_upload: 0, ..state };
            if uploads.len() == 0 {
                request_invalidation(planned)
            } else {
                proceed(planned, Step::Uploading, ActionView::PutObject(uploads[0]))
            }
        },
        Event::DirectoryScanned(Err(cause)) => failed(
            state,
            call_failed(ErrorKind::IOError, cause@),
        ),
        _ => failed(state, unexpected_event()),
    }
}

/// After one object was put: put the next one, or go on when it was the last.
pub open spec fn after_upload(state: DeploymentView, event: Event) -> (DeploymentView, ActionView) {
    match event {
        Event::ObjectPut(Ok(_)) => if state.next_upload + 1 < state.uploads.len() {
            proceed(
                DeploymentView { next_upload: state.next_upload + 1, ..state },
                Step::Uploading,
                ActionView::PutObject(state.uploads[state.next_upload + 1int]),
            )
        } else {
            request_invalidation(state)
        },
        Event::ObjectPut(Err(UploadFailure::Stream(cause))) => failed(
            state,
            call_failed(ErrorKind::UploadStreamError, cause@),
        ),
        Event::ObjectPut(Err(UploadFailure::Put(cause))) => failed(
            state,
            call_failed(ErrorKind::PutObjectError, cause@),
        ),
        _ => failed(state, unexpected_event()),
    }
}

/// After the invalidation request was answered: wait for it to complete.
pub open spec fn after_invalidation_request(state: DeploymentView, event: Event) -> (
    DeploymentView,
    ActionView,
) {
    match event {
        Event::InvalidationCreated(Ok(id)) => {
            let requested = DeploymentView { invalidation_id: id@, ..state };
            proceed(requested, Step::PollingInvalidation, read_invalidation_status(requested))
        },
        Event::InvalidationCreated(Err(cause)) => failed(
            state,
            call_failed(ErrorKind::CreateInvalidationError, cause@),
        ),
        _ => failed(state, unexpected_event()),
    }
}

/// After a reading of the invalidation.
pub open spec fn after_invalidation_poll(state: DeploymentView, event: Event) -> (
    DeploymentView,
    ActionView,
) {
    match event {
        Event::InvalidationStatusRead(observed) => match invalidation_wait_decision(observed) {
            PollOutcomeView::Settled => proceed(
                state,
                Step::Reporting,
                ActionView::Report { url: site_url_of(site_fqdn(state.target)) },
            ),
            PollOutcomeView::Failed(error) => failed(state, error),
            PollOutcomeView::Retry { after_secs } => proceed(
                state,
                Step::PausingForInvalidation,
                ActionView::Sleep { seconds: after_secs },
            ),
        },
        Event::TimedOut(cause) => failed(state, timed_out(cause)),
        _ => failed(state, unexpected_event()),
    }
}

/// After a sleep between two readings of the invalidation.
pub open spec fn after_invalidation_pause(state: DeploymentView, event: Event) -> (
    DeploymentView,
    ActionView,
) {
    match event {
        Event::Slept => proceed(
            state,
            Step::PollingInvalidation,
            read_invalidation_status(state),
        ),
        Event::TimedOut(cause) => failed(state, timed_out(cause)),
        _ => failed(state, unexpected_event()),
    }
}

/// After the site's address was reported: the run is done.
pub open spec fn after_report(state: DeploymentView, event: Event) -> (DeploymentView, ActionView) {
    match event {
        Event::Reported => proceed(state, Step::Done, ActionView::Stop),
        _ => failed(state, unexpected_event()),
    }
}

/// What one event makes of a deployment: its next state, and the outside work
/// to do next.
pub open spec fn transition(state: DeploymentView, event: Event) -> (DeploymentView, ActionView) {
    match state.step {
        Step::VerifyingAccess => after_identity(state, event),
        Step::ResolvingZone => after_zones(state, event),
        Step::ProbingStack => after_probe(state, event),
        Step::CreatingStack => after_create(state, event),
        Step::UpdatingStack => after_update(state, event),
        Step::PollingStack => after_stack_poll(state, event),
        Step::PausingForStack => after_stack_pause(state, event),
        Step::ReadingOutputs => after_outputs(state, event),
        Step::ScanningDirectory => after_scan(state, event),
        Step::Uploading => after_upload(state, event),
        Step::RequestingInvalidation => after_invalidation_request(state, event),
        Step::PollingInvalidation => after_invalidation_poll(state, event),
        Step::PausingForInvalidation => after_invalidation_pause(state, event),
        Step::Reporting => after_report(state, event),
        Step::Done | Step::Failed => (state, ActionView::Stop),
    }
}

fn fail(state: Deployment, error: Error) -> (r: (Deployment, Action))
    ensures
        (r.0@, r.1@) == failed(state@, error@),
{
    let kept = error.duplicate();
    (Deployment { step: Step::Failed, failure: Some(kept), ..state }, Action::Abort(error))
}

fn go(state: Deployment, step: Step, action: Action) -> (r: (Deployment, Action))
    ensures
        (r.0@, r.1@) == proceed(state@, step, action@),
{
    (Deployment { step, ..state }, action)
}

fn fqdn_for(target: &DeploymentTarget) -> (r: String)
    ensures
        r@ == site_fqdn(target@),
{
    fqdn(target.domain_name.as_str(), target.domain_zone.as_str())
}

fn stack_name_for(target: &DeploymentTarget) -> (r: String)
    ensures
        r@ == site_stack(target@),
{
    let domain = fqdn_for(target);
    stack_name(domain.as_str())
}

fn read_status(state: &Deployment) -> (r: Action)
    ensures
        r@ == read_stack_status(state@),
{
    Action::ReadStackStatus { stack_name: stack_name_for(&state.target) }
}

fn read_invalidation(state: &Deployment) -> (r: Action)
    ensures
        r@ == read_invalidation_status(state@),
{
    Action::ReadInvalidationStatus {
        distribution_id: state.distribution_id.clone(),
        invalidation_id: state.invalidation_id.clone(),
    }
}

fn ask_for_invalidation(state: Deployment) -> (r: (Deployment, Action))
    ensures
        (r.0@, r.1@) == request_invalidation(state@),
{
    let action = Action::CreateInvalidation { distribution_id: state.distribution_id.clone() };
    go(state, Step::RequestingInvalidation, action)
}

fn on_identity(state: Deployment, event: Event) -> (r: (Deployment, Action))
    ensures
        (r.0@, r.1@) == after_identity(state@, event),
{
    match event {
        Event::IdentityChecked(Ok(_)) => {
            let action = Action::ListZones { dns_name: state.target.domain_zone.clone() };
            go(state, Step::ResolvingZone, action)
        },
        Event::IdentityChecked(Err(cause)) => fail(
            state,
            Error::GetCallerIdentityError { source: cause },
        ),
        _ => fail(state, Error::UnexpectedEvent),
    }
}

fn on_zones(state: Deployment, event: Event) -> (r: (Deployment, Action))
    ensures
        (r.0@, r.1@) == after_zones(state@, event),
{
    match event {
        Event::ZonesListed(listed) => match find_zone(listed) {
            Ok(zone_id) => {
                let action = read_status(&state);
                go(Deployment { zone_id, ..state }, Step::ProbingStack, action)
            },
            Err(error) => fail(state, error),
        },
        _ => fail(state, Error::UnexpectedEvent),
    }
}

fn on_probe(state: Deployment, event: Event) -> (r: (Deployment, Action))
    ensures
        (r.0@, r.1@) == after_probe(state@, event),
{
    match event {
        Event::StackStatusRead(observed) => match stack_exists_and_is_complete(observed) {
            Ok(exists) => {
                let name = stack_name_for(&state.target);
                let domain = fqdn_for(&state.target);
                if exists {
                    let request = update_stack(&name, &state.template, &state.zone_id, &domain);
                    go(state, Step::UpdatingStack, Action::SubmitStack(request))
                } else {
                    let request = create_stack(&name, &state.template, &state.zone_id, &domain);
                    go(state, Step::CreatingStack, Action::SubmitStack(request))
                }
            },
            Err(error) => fail(state, error),
        },
        _ => fail(state, Error::UnexpectedEvent),
    }
}

fn on_create(state: Deployment, event: Event) -> (r: (Deployment, Action))
    ensures
        (r.0@, r.1@) == after_create(state@, event),
{
    match event {
        Event::StackCreated(response) => match create_stack_outcome(response) {
            Ok(_) => {
                let action = read_status(&state);
                go(state, Step::PollingStack, action)
            },
            Err(error) => fail(state, error),
        },
        _ => fail(state, Error::UnexpectedEvent),
    }
}

fn on_update(state: Deployment, event: Event) -> (r: (Deployment, Action))
    ensures
        (r.0@, r.1@) == after_update(state@, event),
{
    match event {
        Event::StackUpdated(response) => match update_stack_outcome(response) {
            Ok(_) => {
                let action = read_status(&state);
                go(state, Step::PollingStack, action)
            },
            Err(error) => fail(state, error),
        },
        _ => fail(state, Error::UnexpectedEvent),
    }
}

fn on_stack_poll(state: Deployment, event: Event) -> (r: (Deployment, Action))
    ensures
        (r.0@, r.1@) == after_stack_poll(state@, event),
{
    match event {
        Event::StackStatusRead(observed) => match wait_for_stack(observed) {
            PollOutcome::Settled => {
                let action = Action::ReadStackOutputs {
                    stack_name: stack_name_for(&state.target),
                };
                go(state, Step::ReadingOutputs, action)
            },
            PollOutcome::Failed(error) => fail(state, error),
            PollOutcome::Retry { after_secs } => go(
                state,
                Step::PausingForStack,
                Action::Sleep { seconds: after_secs },
            ),
        },
        Event::TimedOut(cause) => fail(state, Error::TimedOut { source: cause }),
        _ => fail(state, Error::UnexpectedEvent),
    }
}

fn on_stack_pause(state: Deployment, event: Event) -> (r: (Deployment, Action))
    ensures
        (r.0@, r.1@) == after_stack_pause(state@, event),
{
    match event {
        Event::Slept => {
            let action = read_status(&state);
            go(state, Step::PollingStack, action)
        },
        Event::TimedOut(cause) => fail(state, Error::TimedOut { source: cause }),
        _ => fail(state, Error::UnexpectedEvent),
    }
}

fn on_outputs(state: Deployment, event: Event) -> (r: (Deployment, Action))
    ensures
        (r.0@, r.1@) == after_outputs(state@, event),
{
    match event {
        Event::StackOutputsRead(described) => match get_stack_output(
            &described,
            "StaticWebsiteBucket",
        ) {
            Ok(bucket) => match get_stack_output(&described, "Distribution") {
                Ok(distribution_id) => {
                    let action = Action::ScanDirectory { path: state.target.deploy.clone() };
                    go(
                        Deployment { bucket, distribution_id, ..state },
                        Step::ScanningDirectory,
                        action,
                    )
                },
                Err(error) => fail(state, error),
            },
            Err(error) => fail(state, error),
        },
        _ => fail(state, Error::UnexpectedEvent),
    }
}

fn on_scan(state: Deployment, event: Event) -> (r: (Deployment, Action))
    ensures
        (r.0@, r.1@) == after_scan(state@, event),
{
    match event {
        Event::DirectoryScanned(Ok(entries)) => {
            let uploads = upload_directory(&entries, &state.bucket);
            if uploads.len() == 0 {
                ask_for_invalidation(Deployment { uploads, next_upload: 0, ..state })
            } else {
                let first = uploads[0].duplicate();
                go(
                    Deployment { uploads, next_upload: 0, ..state },
                    Step::Uploading,
                    Action::PutObject(first),
                )
            }
        },
        Event::DirectoryScanned(Err(cause)) => fail(state, Error::IOError { source: cause }),
        _ => fail(state, Error::UnexpectedEvent),
    }
}

fn on_upload(state: Deployment, event: Event) -> (r: (Deployment, Action))
    ensures
        (r.0@, r.1@) == after_upload(state@, event),
{
    match event {
        Event::ObjectPut(Ok(_)) => {
            if state.next_upload < state.uploads.len() && state.next_upload + 1
                < state.uploads.len() {
                let next: usize = state.next_upload + 1;
                let request = state.uploads[next].duplicate();
                go(
                    Deployment { next_upload: next, ..state },
                    Step::Uploading,
                    Action::PutObject(request),
                )
            } else {
                ask_for_invalidation(state)
            }
        },
        Event::ObjectPut(Err(UploadFailure::Stream(cause))) => fail(
            state,
            Error::UploadStreamError { source: cause },
        ),
        Event::ObjectPut(Err(UploadFailure::Put(cause))) => fail(
            state,
            Error::PutObjectError { source: cause },
        ),
        _ => fail(state, Error::UnexpectedEvent),
    }
}

fn on_invalidation_request(state: Deployment, event: Event) -> (r: (Deployment, Action))
    ensures
        (r.0@, r.1@) == after_invalidation_request(state@, event),
{
    match event {
        Event::InvalidationCreated(response) => match invalidation_outcome(response) {
            Ok(id) => {
                let requested = Deployment { invalidation_id: id, ..state };
                let action = read_invalidation(&requested);
                go(requested, Step::PollingInvalidation, action)
            },
            Err(error) => fail(state, error),
        },
        _ => fail(state, Error::UnexpectedEvent),
    }
}

fn on_invalidation_poll(state: Deployment, event: Event) -> (r: (Deployment, Action))
    ensures
        (r.0@, r.1@) == after_invalidation_poll(state@, event),
{
    match event {
        Event::InvalidationStatusRead(observed) => match wait_for_invalidation(observed) {
            PollOutcome::Settled => {
                let domain = fqdn_for(&state.target);
                let action = Action::Report { url: site_url(domain.as_str()) };
                go(state, Step::Reporting, action)
            },
            PollOutcome::Failed(error) => fail(state, error),
            PollOutcome::Retry { after_secs } => go(
                state,
                Step::PausingForInvalidation,
                Action::Sleep { seconds: after_secs },
            ),
        },
        Event::TimedOut(cause) => fail(state, Error::TimedOut { source: cause }),
        _ => fail(state, Error::UnexpectedEvent),
    }
}

fn on_invalidation_pause(state: Deployment, event: Event) -> (r: (Deployment, Action))
    ensures
        (r.0@, r.1@) == after_invalidation_pause(state@, event),
{
    match event {
        Event::Slept => {
            let action = read_invalidation(&state);
            go(state, Step::PollingInvalidation, action)
        },
        Event::TimedOut(cause) => fail(state, Error::TimedOut { source: cause }),
        _ => fail(state, Error::UnexpectedEvent),
    }
}

fn on_report(state: Deployment, event: Event) -> (r: (Deployment, Action))
    ensures
        (r.0@, r.1@) == after_report(state@, event),
{
    match event {
        Event::Reported => go(state, Step::Done, Action::Stop),
        _ => fail(state, Error::UnexpectedEvent),
    }
}

/// Gives the deadline to hold the next piece of work to.
///
/// `limit` is the limit of the wait that the step to come belongs to, as
/// [`Deployment::wait_limit_secs`] gives it; `running` is the deadline that
/// held for the step before, and `now_secs` the present time.
pub fn deadline_after(limit: Option<u64>, running: Option<u64>, now_secs: u64) -> (r: Option<u64>)
    ensures
        r == deadline(limit, running, now_secs),
        limit is None ==> r is None,
        limit is Some && running is Some ==> r == running,
        limit is Some && running is None ==> r == Some(
            if now_secs + limit->0 > u64::MAX {
                u64::MAX
            } else {
                (now_secs + limit->0) as u64
            },
        ),
{
    match limit {
        None => None,
        Some(seconds) => match running {
            Some(set) => Some(set),
            None => {
                if seconds > u64::MAX - now_secs {
                    Some(u64::MAX)
                } else {
                    Some(now_secs + seconds)
                }
            },
        },
    }
}

impl Deployment {
    /// Begins a deployment: nothing is known yet, and the first thing to do
    /// is to check that the credentials work.
    pub fn start(target: DeploymentTarget, template: String) -> (r: (Deployment, Action))
        ensures
            r.0@ == initial(target@, template@),
            r.1@ == ActionView::VerifyAccess,
    {
        let state = Deployment {
            target,
            template,
            step: Step::VerifyingAccess,
            zone_id: String::new(),
            bucket: String::new(),
            distribution_id: String::new(),
            uploads: Vec::new(),
            next_upload: 0,
            invalidation_id: String::new(),
            failure: None,
        };
        assert(state@.uploads =~= Seq::empty());
        (state, Action::VerifyAccess)
    }

    /// How far this deployment has come.
    pub fn phase(&self) -> (r: Phase)
        ensures
            r == phase_of(self@.step),
    {
        match self.step {
            Step::VerifyingAccess => Phase::Init,
            Step::ResolvingZone => Phase::AccessVerified,
            Step::ProbingStack
            | Step::CreatingStack
            | Step::UpdatingStack
            | Step::PollingStack
            | Step::PausingForStack => Phase::ZoneResolved,
            Step::ReadingOutputs => Phase::StackReady,
            Step::ScanningDirectory | Step::Uploading => Phase::OutputsResolved,
            Step::RequestingInvalidation
            | Step::PollingInvalidation
            | Step::PausingForInvalidation => Phase::ContentUploaded,
            Step::Reporting => Phase::CacheInvalidated,
            Step::Done => Phase::Done,
            Step::Failed => Phase::Failed,
        }
    }

    /// The limit, in seconds, of the wait that is going on, if one is.
    ///
    /// Whoever runs the machine measures the time from the first step that
    /// has a limit, and hands in [`Event::TimedOut`] when it is used up.
    pub fn wait_limit_secs(&self) -> (r: Option<u64>)
        ensures
            r == wait_limit(self@.step),
    {
        match self.step {
            Step::PollingStack
            | Step::PausingForStack
            | Step::PollingInvalidation
            | Step::PausingForInvalidation => Some(SETTLE_TIMEOUT_SECS),
            _ => None,
        }
    }

    /// Takes a recorded sequence of results, one after the other, and gives
    /// the state after the last and the work asked for after each.
    pub fn run(self, events: Vec<Event>) -> (r: (Deployment, Vec<Action>))
        ensures
            (r.0@, action_views(r.1@)) == run(self@, events@),
    {
        let ghost begin = self@;
        let ghost all = events@;
        let mut state = self;
        let mut actions: Vec<Action> = Vec::new();
        proof {
            assert(all.skip(0) =~= all);
            assert(action_views(actions@) + run(begin, all).1 =~= run(begin, all).1);
        }
        for event in it: events
            invariant
                it.seq() == all,
                run(begin, all) == (
                    run(state@, all.skip(it.index() as int)).0,
                    action_views(actions@) + run(state@, all.skip(it.index() as int)).1,
                ),
        {
            let ghost i = it.index() as int;
            let ghost before = state@;
            let ghost asked = action_views(actions@);
            let (next, action) = state.step(event);
            proof {
                assert(all.skip(i)[0] == all[i]);
                assert(all.skip(i).drop_first() =~= all.skip(i + 1));
                assert(action_views(actions@.push(action)) =~= asked + seq![action@]);
                assert(asked + (seq![action@] + run(next@, all.skip(i + 1)).1) =~= (asked
                    + seq![action@]) + run(next@, all.skip(i + 1)).1);
            }
            state = next;
            actions.push(action);
        }
        proof {
            assert(all.skip(all.len() as int) =~= Seq::<Event>::empty());
            assert(action_views(actions@) + Seq::<ActionView>::empty() =~= action_views(actions@));
        }
        (state, actions)
    }

    /// Takes the result of the outside work that was asked for, and gives
    /// the deployment's next state and the next work to do.
    pub fn step(self, event: Event) -> (r: (Deployment, Action))
        ensures
            (r.0@, r.1@) == transition(self@, event),
    {
        match self.step {
            Step::VerifyingAccess => on_identity(self, event),
            Step::ResolvingZone => on_zones(self, event),
            Step::ProbingStack => on_probe(self, event),
            Step::CreatingStack => on_create(self, event),
            Step::UpdatingStack => on_update(self, event),
            Step::PollingStack => on_stack_poll(self, event),
            Step::PausingForStack => on_stack_pause(self, event),
            Step::ReadingOutputs => on_outputs(self, event),
            Step::ScanningDirectory => on_scan(self, event),
            Step::Uploading => on_upload(self, event),
            Step::RequestingInvalidation => on_invalidation_request(self, event),
            Step::PollingInvalidation => on_invalidation_poll(self, event),
            Step::PausingForInvalidation => on_invalidation_pause(self, event),
            Step::Reporting => on_report(self, event),
            Step::Done | Step::Failed => (self, Action::Stop),
        }
    }
}

/// What a run of events makes of a deployment: the state after the last
/// event, and the actions that were asked for, one for each event.
pub open spec fn run(state: DeploymentView, events: Seq<Event>) -> (
    DeploymentView,
    Seq<ActionView>,
)
    decreases events.len(),
{
    if events.len() == 0 {
        (state, Seq::empty())
    } else {
        let (next, action) = transition(state, events[0]);
        let (last, actions) = run(next, events.drop_first());
        (last, seq![action] + actions)
    }
}

/// The values of a list of actions, in order.
pub open spec fn action_views(actions: Seq<Action>) -> Seq<ActionView> {
    Seq::new(actions.len(), |i: int| actions[i]@)
}

/// A run asks for one action for each event.
pub proof fn lemma_run_len(state: DeploymentView, events: Seq<Event>)
    ensures
        run(state, events).1.len() == events.len(),
    decreases events.len(),
{
    if events.len() > 0 {
        lemma_run_len(transition(state, events[0]).0, events.drop_first());
    }
}

/// A run that is done or has failed stays as it is, whatever comes in, and
/// asks for nothing more.
pub proof fn lemma_terminal_steps_absorb(state: DeploymentView, event: Event)
    requires
        state.step is Done || state.step is Failed,
    ensures
        transition(state, event) == (state, ActionView::Stop),
{
}

/// After a run is done or has failed, every further event leaves it
/// unchanged and is answered with `Stop`: no remote call is asked for again.
pub proof fn lemma_nothing_follows_the_end(state: DeploymentView, events: Seq<Event>, i: int)
    requires
        state.step is Done || state.step is Failed,
        0 <= i < events.len(),
    ensures
        run(state, events).0 == state,
        run(state, events).1.len() == events.len(),
        run(state, events).1[i] == ActionView::Stop,
    decreases events.len(),
{
    lemma_run_len(state, events);
    lemma_run_unchanged(state, events);
    if i > 0 {
        lemma_nothing_follows_the_end(state, events.drop_first(), i - 1);
    }
}

proof fn lemma_run_unchanged(state: DeploymentView, events: Seq<Event>)
    requires
        state.step is Done || state.step is Failed,
    ensures
        run(state, events).0 == state,
    decreases events.len(),
{
    if events.len() > 0 {
        lemma_run_unchanged(state, events.drop_first());
    }
}

/// The phases come in one order: an event leaves the phase as it is, moves
/// it on by exactly one, or fails the run.
pub proof fn lemma_phases_in_order(state: DeploymentView, event: Event)
    ensures
        ({
            let next = transition(state, event).0;
            let before = phase_rank(phase_of(state.step));
            let after = phase_rank(phase_of(next.step));
            next.step is Failed || after == before || after == before + 1
        }),
{
}

/// The run is aborted exactly when it fails, once, and with the error that
/// it records.
pub proof fn lemma_abort_marks_the_failure(state: DeploymentView, event: Event)
    ensures
        ({
            let (next, action) = transition(state, event);
            &&& action is Abort <==> next.step is Failed && !(state.step is Failed)
            &&& action matches ActionView::Abort(error) ==> next.failure == Some(error)
        }),
{
}

/// A stack that is not there is created; one that is there and usable is
/// updated; in any other case no request is sent and the run fails.
pub proof fn lemma_create_or_update(state: DeploymentView, observed: Result<StackStatus, Cause>)
    requires
        state.step is ProbingStack,
    ensures
        match probe_result(observed) {
            Ok(exists) => {
                let operation = if exists {
                    StackOperation::Update
                } else {
                    StackOperation::Create
                };
                let step = if exists {
                    Step::UpdatingStack
                } else {
                    Step::CreatingStack
                };
                transition(state, Event::StackStatusRead(observed)) == proceed(
                    state,
                    step,
                    ActionView::SubmitStack(site_stack_request(state, operation)),
                )
            },
            Err(error) => transition(state, Event::StackStatusRead(observed)) == failed(
                state,
                error,
            ),
        },
{
}

/// While the stack settles: a status in the success set moves on to reading
/// the outputs without another reading; one in the failure set fails the run
/// at once, without a sleep; any other asks for one sleep of the poll
/// interval, after which the stack is read again.
pub proof fn lemma_stack_wait(state: DeploymentView, status: StackStatus)
    requires
        state.step is PollingStack,
    ensures
        in_success_set(status) ==> transition(state, Event::StackStatusRead(Ok(status)))
            == proceed(
            state,
            Step::ReadingOutputs,
            ActionView::ReadStackOutputs { stack_name: site_stack(state.target) },
        ),
        in_failure_set(status) ==> transition(state, Event::StackStatusRead(Ok(status))) == failed(
            state,
            unusable_state(),
        ),
        !in_success_set(status) && !in_failure_set(status) ==> {
            let (paused, action) = transition(state, Event::StackStatusRead(Ok(status)));
            &&& paused == (DeploymentView { step: Step::PausingForStack, ..state })
            &&& action == (ActionView::Sleep { seconds: POLL_INTERVAL_SECS })
            &&& transition(paused, Event::Slept) == (state, read_stack_status(state))
        },
{
    if !in_success_set(status) && !in_failure_set(status) {
        let (paused, action) = transition(state, Event::StackStatusRead(Ok(status)));
        assert(transition(paused, Event::Slept).0 == state);
    }
}

/// Each kind of remote work is asked for only after what it depends on: a
/// stack request only right after the probe, the outputs only when the stack
/// was seen settled in success, an object only once the outputs are
/// resolved, the invalidation only when no object is left to put, and the
/// report only when the invalidation was seen completed.
pub proof fn lemma_work_in_order(state: DeploymentView, event: Event)
    ensures
        ({
            let (next, action) = transition(state, event);
            &&& action is SubmitStack ==> state.step is ProbingStack
            &&& action is ReadStackOutputs ==> state.step is PollingStack && (
            event matches Event::StackStatusRead(Ok(status)) && in_success_set(status))
            &&& action is ScanDirectory ==> state.step is ReadingOutputs
            &&& action is PutObject ==> phase_of(state.step) is OutputsResolved
            &&& action is CreateInvalidation ==> phase_of(state.step) is OutputsResolved && (
            next.uploads.len() == 0 || next.next_upload + 1 >= next.uploads.len())
            &&& action is Report ==> state.step is PollingInvalidation && (
            event matches Event::InvalidationStatusRead(Ok(status)) && status@ == "Completed"@)
        }),
{
}

/// Objects are put one after the other in the order of the plan: after the
/// object at one place is put, the next place is the one after it.
pub proof fn lemma_uploads_in_plan_order(state: DeploymentView, event: Event)
    requires
        state.step is Uploading,
    ensures
        ({
            let (next, action) = transition(state, event);
            action matches ActionView::PutObject(request) ==> {
                &&& next.uploads == state.uploads
                &&& next.next_upload == state.next_upload + 1
                &&& next.next_upload < next.uploads.len()
                &&& request == next.uploads[next.next_upload as int]
            }
        }),
{
}

/// When every object is put without a failure, each request of the plan is
/// sent, in the plan's order and once, and only then is the invalidation
/// asked for.
pub proof fn lemma_every_object_is_put(state: DeploymentView, events: Seq<Event>, i: int)
    requires
        state.step is Uploading,
        state.next_upload < state.uploads.len(),
        events.len() == state.uploads.len() - state.next_upload,
        forall|k: int| 0 <= k < events.len() ==> events[k] == Event::ObjectPut(Ok(())),
        0 <= i < events.len(),
    ensures
        run(state, events).0.step is RequestingInvalidation,
        run(state, events).1.len() == events.len(),
        i + 1 < events.len() ==> run(state, events).1[i] == ActionView::PutObject(
            state.uploads[state.next_upload + 1 + i],
        ),
        i + 1 == events.len() ==> run(state, events).1[i] == (ActionView::CreateInvalidation {
            distribution_id: state.distribution_id,
        }),
    decreases events.len(),
{
    lemma_run_len(state, events);
    let (next, action) = transition(state, events[0]);
    let rest = events.drop_first();
    assert(events[0] == Event::ObjectPut(Ok(())));
    if events.len() == 1 {
        assert(rest =~= Seq::<Event>::empty());
        assert(run(next, rest).0 == next);
    } else {
        assert forall|k: int| 0 <= k < rest.len() implies rest[k] == Event::ObjectPut(
            Ok(()),
        ) by {
            assert(rest[k] == events[k + 1]);
        }
        if i == 0 {
            lemma_every_object_is_put(next, rest, 0);
        } else {
            lemma_every_object_is_put(next, rest, i - 1);
        }
    }
}

/// A zone lookup that matches nothing fails the run with the zone-not-found
/// error, and no stack operation is ever asked for: the failure is the only
/// action that is not `Stop`.
pub proof fn lemma_no_zone_no_stack_work(
    state: DeploymentView,
    listed: Result<Vec<String>, Cause>,
    later: Seq<Event>,
    i: int,
)
    requires
        state.step is ResolvingZone,
        listed matches Ok(zones) && zones@.len() == 0,
        0 <= i < later.len(),
    ensures
        transition(state, Event::ZonesListed(listed)) == failed(state, zone_not_found()),
        run(state, seq![Event::ZonesListed(listed)] + later).1[0] == ActionView::Abort(
            zone_not_found(),
        ),
        run(state, seq![Event::ZonesListed(listed)] + later).1[i + 1] == ActionView::Stop,
{
    let events = seq![Event::ZonesListed(listed)] + later;
    let stopped = failed(state, zone_not_found()).0;
    assert(events[0] == Event::ZonesListed(listed));
    assert(events.drop_first() =~= later);
    lemma_nothing_follows_the_end(stopped, later, i);
}

/// A wait that runs out fails the run with the timed-out error, whether a
/// reading is out or a sleep is going on, and nothing is asked for after it:
/// no object is put.
pub proof fn lemma_timeout_ends_the_run(
    state: DeploymentView,
    cause: Cause,
    later: Seq<Event>,
    i: int,
)
    requires
        wait_limit(state.step) is Some,
        0 <= i < later.len(),
    ensures
        transition(state, Event::TimedOut(cause)) == failed(state, timed_out(cause)),
        run(state, seq![Event::TimedOut(cause)] + later).1[0] == ActionView::Abort(
            timed_out(cause),
        ),
        run(state, seq![Event::TimedOut(cause)] + later).1[i + 1] == ActionView::Stop,
{
    let events = seq![Event::TimedOut(cause)] + later;
    let stopped = failed(state, timed_out(cause)).0;
    assert(events[0] == Event::TimedOut(cause));
    assert(events.drop_first() =~= later);
    lemma_nothing_follows_the_end(stopped, later, i);
}

/// Two sites with different well-formed domain names are served by
/// different stacks, and one site always by the same.
pub proof fn lemma_one_stack_per_site(a: TargetView, b: TargetView)
    requires
        is_domain_name(site_fqdn(a)),
        is_domain_name(site_fqdn(b)),
    ensures
        site_stack(a) == site_stack(b) <==> site_fqdn(a) == site_fqdn(b),
{
    if site_stack(a) == site_stack(b) {
        lemma_stack_name_injective(site_fqdn(a), site_fqdn(b));
    }
}

/// Through the steps of one wait the deadline stays what it was set to at
/// the first of them, and the step after the wait has none.
pub proof fn lemma_deadline_is_kept(first: u64, later: u64, limit: u64)
    ensures
        deadline(Some(limit), deadline(Some(limit), None, first), later) == deadline(
            Some(limit),
            None,
            first,
        ),
        deadline(None, deadline(Some(limit), None, first), later) is None,
{
}

/// Only the two settlement waits have a limit, and it is the same for both.
pub proof fn lemma_waits_are_bounded(step: Step)
    ensures
        wait_limit(step) is Some <==> step is PollingStack || step is PausingForStack || step
            is PollingInvalidation || step is PausingForInvalidation,
        wait_limit(step) matches Some(limit) ==> limit == SETTLE_TIMEOUT_SECS,
{
}

} // verus!
