//! The infrastructure stack's lifecycle: whether to create or update it,
//! what request to issue, and how each reading of its status is judged.

use vstd::prelude::*;
use crate::error::{call_failed, unusable_state, Cause, Error, ErrorKind, ErrorView};
use crate::poller::{poll_decision, poll_step, Classification, PollOutcome, PollOutcomeView, POLL_INTERVAL_SECS};
use crate::text::{contains, occurs_in, text_eq};

verus! {

/// The status a stack reports about itself.
#[derive(Clone, Copy, Debug, PartialEq, Eq, Structural)]
pub enum StackStatus {
    CreateComplete,
    CreateFailed,
    CreateInProgress,
    DeleteComplete,
    DeleteFailed,
    DeleteInProgress,
    ImportComplete,
    ImportInProgress,
    ImportRollbackComplete,
    ImportRollbackFailed,
    ImportRollbackInProgress,
    ReviewInProgress,
    RollbackComplete,
    RollbackFailed,
    RollbackInProgress,
    UpdateComplete,
    UpdateCompleteCleanupInProgress,
    UpdateFailed,
    UpdateInProgress,
    UpdateRollbackComplete,
    UpdateRollbackCompleteCleanupInProgress,
    UpdateRollbackFailed,
    UpdateRollbackInProgress,
    /// A status this library does not know by name.
    Unknown,
}

/// The name under which the provider reports a status; `None` for a status
/// this library does not know by name.
pub open spec fn wire_name(status: StackStatus) -> Option<Seq<char>> {
    match status {
        StackStatus::CreateComplete => Some("CREATE_COMPLETE"@),
        StackStatus::CreateFailed => Some("CREATE_FAILED"@),
        StackStatus::CreateInProgress => Some("CREATE_IN_PROGRESS"@),
        StackStatus::DeleteComplete => Some("DELETE_COMPLETE"@),
        StackStatus::DeleteFailed => Some("DELETE_FAILED"@),
        StackStatus::DeleteInProgress => Some("DELETE_IN_PROGRESS"@),
        StackStatus::ImportComplete => Some("IMPORT_COMPLETE"@),
        StackStatus::ImportInProgress => Some("IMPORT_IN_PROGRESS"@),
        StackStatus::ImportRollbackComplete => Some("IMPORT_ROLLBACK_COMPLETE"@),
        StackStatus::ImportRollbackFailed => Some("IMPORT_ROLLBACK_FAILED"@),
        StackStatus::ImportRollbackInProgress => Some("IMPORT_ROLLBACK_IN_PROGRESS"@),
        StackStatus::ReviewInProgress => Some("REVIEW_IN_PROGRESS"@),
        StackStatus::RollbackComplete => Some("ROLLBACK_COMPLETE"@),
        StackStatus::RollbackFailed => Some("ROLLBACK_FAILED"@),
        StackStatus::RollbackInProgress => Some("ROLLBACK_IN_PROGRESS"@),
        StackStatus::UpdateComplete => Some("UPDATE_COMPLETE"@),
        StackStatus::UpdateCompleteCleanupInProgress => Some("UPDATE_COMPLETE_CLEANUP_IN_PROGRESS"@),
        StackStatus::UpdateFailed => Some("UPDATE_FAILED"@),
        StackStatus::UpdateInProgress => Some("UPDATE_IN_PROGRESS"@),
        StackStatus::UpdateRollbackComplete => Some("UPDATE_ROLLBACK_COMPLETE"@),
        StackStatus::UpdateRollbackCompleteCleanupInProgress => Some("UPDATE_ROLLBACK_COMPLETE_CLEANUP_IN_PROGRESS"@),
        StackStatus::UpdateRollbackFailed => Some("UPDATE_ROLLBACK_FAILED"@),
        StackStatus::UpdateRollbackInProgress => Some("UPDATE_ROLLBACK_IN_PROGRESS"@),
        StackStatus::Unknown => None,
    }
}

impl StackStatus {
    /// The status that the provider reports under `name`: the one with that
    /// name, or `Unknown` when no status has it.
    pub fn from_name(name: &str) -> (r: StackStatus)
        ensures
            r is Unknown <==> forall|status: StackStatus| wire_name(status) != Some(name@),
            !(r is Unknown) ==> wire_name(r) == Some(name@),
    {
        if text_eq(name, "CREATE_COMPLETE") {
            assert(wire_name(StackStatus::CreateComplete) == Some(name@));
            StackStatus::CreateComplete
        } else if text_eq(name, "CREATE_FAILED") {
            assert(wire_name(StackStatus::CreateFailed) == Some(name@));
            StackStatus::CreateFailed
        } else if text_eq(name, "CREATE_IN_PROGRESS") {
            assert(wire_name(StackStatus::CreateInProgress) == Some(name@));
            StackStatus::CreateInProgress
        } else if text_eq(name, "DELETE_COMPLETE") {
            assert(wire_name(StackStatus::DeleteComplete) == Some(name@));
            StackStatus::DeleteComplete
        } else if text_eq(name, "DELETE_FAILED") {
            assert(wire_name(StackStatus::DeleteFailed) == Some(name@));
            StackStatus::DeleteFailed
        } else if text_eq(name, "DELETE_IN_PROGRESS") {
            assert(wire_name(StackStatus::DeleteInProgress) == Some(name@));
            StackStatus::DeleteInProgress
        } else if text_eq(name, "IMPORT_COMPLETE") {
            assert(wire_name(StackStatus::ImportComplete) == Some(name@));
            StackStatus::ImportComplete
        } else if text_eq(name, "IMPORT_IN_PROGRESS") {
            assert(wire_name(StackStatus::ImportInProgress) == Some(name@));
            StackStatus::ImportInProgress
        } else if text_eq(name, "IMPORT_ROLLBACK_COMPLETE") {
            assert(wire_name(StackStatus::ImportRollbackComplete) == Some(name@));
            StackStatus::ImportRollbackComplete
        } else if text_eq(name, "IMPORT_ROLLBACK_FAILED") {
            assert(wire_name(StackStatus::ImportRollbackFailed) == Some(name@));
            StackStatus::ImportRollbackFailed
        } else if text_eq(name, "IMPORT_ROLLBACK_IN_PROGRESS") {
            assert(wire_name(StackStatus::ImportRollbackInProgress) == Some(name@));
            StackStatus::ImportRollbackInProgress
        } else if text_eq(name, "REVIEW_IN_PROGRESS") {
            assert(wire_name(StackStatus::ReviewInProgress) == Some(name@));
            StackStatus::ReviewInProgress
        } else if text_eq(name, "ROLLBACK_COMPLETE") {
            assert(wire_name(StackStatus::RollbackComplete) == Some(name@));
            StackStatus::RollbackComplete
        } else if text_eq(name, "ROLLBACK_FAILED") {
            assert(wire_name(StackStatus::RollbackFailed) == Some(name@));
            StackStatus::RollbackFailed
        } else if text_eq(name, "ROLLBACK_IN_PROGRESS") {
            assert(wire_name(StackStatus::RollbackInProgress) == Some(name@));
            StackStatus::RollbackInProgress
        } else if text_eq(name, "UPDATE_COMPLETE") {
            assert(wire_name(StackStatus::UpdateComplete) == Some(name@));
            StackStatus::UpdateComplete
        } else if text_eq(name, "UPDATE_COMPLETE_CLEANUP_IN_PROGRESS") {
            assert(wire_name(StackStatus::UpdateCompleteCleanupInProgress) == Some(name@));
            StackStatus::UpdateCompleteCleanupInProgress
        } else if text_eq(name, "UPDATE_FAILED") {
            assert(wire_name(StackStatus::UpdateFailed) == Some(name@));
            StackStatus::UpdateFailed
        } else if text_eq(name, "UPDATE_IN_PROGRESS") {
            assert(wire_name(StackStatus::UpdateInProgress) == Some(name@));
            StackStatus::UpdateInProgress
        } else if text_eq(name, "UPDATE_ROLLBACK_COMPLETE") {
            assert(wire_name(StackStatus::UpdateRollbackComplete) == Some(name@));
            StackStatus::UpdateRollbackComplete
        } else if text_eq(name, "UPDATE_ROLLBACK_COMPLETE_CLEANUP_IN_PROGRESS") {
            assert(wire_name(StackStatus::UpdateRollbackCompleteCleanupInProgress) == Some(name@));
            StackStatus::UpdateRollbackCompleteCleanupInProgress
        } else if text_eq(name, "UPDATE_ROLLBACK_FAILED") {
            assert(wire_name(StackStatus::UpdateRollbackFailed) == Some(name@));
            StackStatus::UpdateRollbackFailed
        } else if text_eq(name, "UPDATE_ROLLBACK_IN_PROGRESS") {
            assert(wire_name(StackStatus::UpdateRollbackInProgress) == Some(name@));
            StackStatus::UpdateRollbackInProgress
        } else {
            assert forall|status: StackStatus| wire_name(status) != Some(name@) by {
                match status {
                    StackStatus::CreateComplete => {},
                    StackStatus::CreateFailed => {},
                    StackStatus::CreateInProgress => {},
                    StackStatus::DeleteComplete => {},
                    StackStatus::DeleteFailed => {},
                    StackStatus::DeleteInProgress => {},
                    StackStatus::ImportComplete => {},
                    StackStatus::ImportInProgress => {},
                    StackStatus::ImportRollbackComplete => {},
                    StackStatus::ImportRollbackFailed => {},
                    StackStatus::ImportRollbackInProgress => {},
                    StackStatus::ReviewInProgress => {},
                    StackStatus::RollbackComplete => {},
                    StackStatus::RollbackFailed => {},
                    StackStatus::RollbackInProgress => {},
                    StackStatus::UpdateComplete => {},
                    StackStatus::UpdateCompleteCleanupInProgress => {},
                    StackStatus::UpdateFailed => {},
                    StackStatus::UpdateInProgress => {},
                    StackStatus::UpdateRollbackComplete => {},
                    StackStatus::UpdateRollbackCompleteCleanupInProgress => {},
                    StackStatus::UpdateRollbackFailed => {},
                    StackStatus::UpdateRollbackInProgress => {},
                    StackStatus::Unknown => {},
                }
            }
            StackStatus::Unknown
        }
    }

    /// The name under which the provider reports this status, if it has one.
    pub fn name(self) -> (r: Option<&'static str>)
        ensures
            match r {
                Some(name) => wire_name(self) == Some(name@),
                None => wire_name(self) is None,
            },
    {
        match self {
            StackStatus::CreateComplete => Some("CREATE_COMPLETE"),
            StackStatus::CreateFailed => Some("CREATE_FAILED"),
            StackStatus::CreateInProgress => Some("CREATE_IN_PROGRESS"),
            StackStatus::DeleteComplete => Some("DELETE_COMPLETE"),
            StackStatus::DeleteFailed => Some("DELETE_FAILED"),
            StackStatus::DeleteInProgress => Some("DELETE_IN_PROGRESS"),
            StackStatus::ImportComplete => Some("IMPORT_COMPLETE"),
            StackStatus::ImportInProgress => Some("IMPORT_IN_PROGRESS"),
            StackStatus::ImportRollbackComplete => Some("IMPORT_ROLLBACK_COMPLETE"),
            StackStatus::ImportRollbackFailed => Some("IMPORT_ROLLBACK_FAILED"),
            StackStatus::ImportRollbackInProgress => Some("IMPORT_ROLLBACK_IN_PROGRESS"),
            StackStatus::ReviewInProgress => Some("REVIEW_IN_PROGRESS"),
            StackStatus::RollbackComplete => Some("ROLLBACK_COMPLETE"),
            StackStatus::RollbackFailed => Some("ROLLBACK_FAILED"),
            StackStatus::RollbackInProgress => Some("ROLLBACK_IN_PROGRESS"),
            StackStatus::UpdateComplete => Some("UPDATE_COMPLETE"),
            StackStatus::UpdateCompleteCleanupInProgress => Some("UPDATE_COMPLETE_CLEANUP_IN_PROGRESS"),
            StackStatus::UpdateFailed => Some("UPDATE_FAILED"),
            StackStatus::UpdateInProgress => Some("UPDATE_IN_PROGRESS"),
            StackStatus::UpdateRollbackComplete => Some("UPDATE_ROLLBACK_COMPLETE"),
            StackStatus::UpdateRollbackCompleteCleanupInProgress => Some("UPDATE_ROLLBACK_COMPLETE_CLEANUP_IN_PROGRESS"),
            StackStatus::UpdateRollbackFailed => Some("UPDATE_ROLLBACK_FAILED"),
            StackStatus::UpdateRollbackInProgress => Some("UPDATE_ROLLBACK_IN_PROGRESS"),
            StackStatus::Unknown => None,
        }
    }
}

/// How long a status name is, and the letters that tell apart the names of
/// one length.
spec fn name_marks(name: Seq<char>) -> (nat, char, char, char) {
    (name.len(), name[0], name[7], name[16])
}

/// No two statuses share a name, so reading a status back from its name
/// gives the same status.
pub proof fn lemma_wire_names_distinct(a: StackStatus, b: StackStatus)
    requires
        wire_name(a) is Some,
        wire_name(a) == wire_name(b),
    ensures
        a == b,
{
    reveal_strlit("CREATE_COMPLETE");
    reveal_strlit("CREATE_FAILED");
    reveal_strlit("CREATE_IN_PROGRESS");
    reveal_strlit("DELETE_COMPLETE");
    reveal_strlit("DELETE_FAILED");
    reveal_strlit("DELETE_IN_PROGRESS");
    reveal_strlit("IMPORT_COMPLETE");
    reveal_strlit("IMPORT_IN_PROGRESS");
    reveal_strlit("IMPORT_ROLLBACK_COMPLETE");
    reveal_strlit("IMPORT_ROLLBACK_FAILED");
    reveal_strlit("IMPORT_ROLLBACK_IN_PROGRESS");
    reveal_strlit("REVIEW_IN_PROGRESS");
    reveal_strlit("ROLLBACK_COMPLETE");
    reveal_strlit("ROLLBACK_FAILED");
    reveal_strlit("ROLLBACK_IN_PROGRESS");
    reveal_strlit("UPDATE_COMPLETE");
    reveal_strlit("UPDATE_COMPLETE_CLEANUP_IN_PROGRESS");
    reveal_strlit("UPDATE_FAILED");
    reveal_strlit("UPDATE_IN_PROGRESS");
    reveal_strlit("UPDATE_ROLLBACK_COMPLETE");
    reveal_strlit("UPDATE_ROLLBACK_COMPLETE_CLEANUP_IN_PROGRESS");
    reveal_strlit("UPDATE_ROLLBACK_FAILED");
    reveal_strlit("UPDATE_ROLLBACK_IN_PROGRESS");
    assert(name_marks(wire_name(a)->0) == name_marks(wire_name(b)->0));
}

/// The statuses that end a wait in success: the change that was asked for
/// went through.
pub open spec fn in_success_set(status: StackStatus) -> bool {
    status is CreateComplete || status is UpdateComplete
}

/// The statuses that end a wait in failure: a create or update that failed,
/// and every rollback and delete status. All of them need an operator.
pub open spec fn in_failure_set(status: StackStatus) -> bool {
    ||| status is CreateFailed
    ||| status is UpdateFailed
    ||| status is UpdateRollbackInProgress
    ||| status is UpdateRollbackFailed
    ||| status is UpdateRollbackComplete
    ||| status is UpdateRollbackCompleteCleanupInProgress
    ||| status is DeleteInProgress
    ||| status is DeleteFailed
    ||| status is DeleteComplete
    ||| status is RollbackInProgress
    ||| status is RollbackFailed
    ||| status is RollbackComplete
}

/// How a stack status counts while waiting for the stack to settle.
pub open spec fn settlement(status: StackStatus) -> Classification {
    if in_success_set(status) {
        Classification::Success
    } else if in_failure_set(status) {
        Classification::Failure
    } else {
        Classification::Transient
    }
}

/// The statuses of an existing stack that can take an update: the three
/// terminal statuses that leave the stack in a good state.
pub open spec fn is_usable(status: StackStatus) -> bool {
    status is CreateComplete || status is UpdateComplete || status is UpdateRollbackComplete
}

/// Classifies a stack status for the settlement wait.
pub fn classify_stack_status(status: StackStatus) -> (r: Classification)
    ensures
        r == settlement(status),
{
    match status {
        StackStatus::CreateComplete | StackStatus::UpdateComplete => Classification::Success,
        StackStatus::CreateFailed
        | StackStatus::UpdateFailed
        | StackStatus::UpdateRollbackInProgress
        | StackStatus::UpdateRollbackFailed
        | StackStatus::UpdateRollbackComplete
        | StackStatus::UpdateRollbackCompleteCleanupInProgress
        | StackStatus::DeleteInProgress
        | StackStatus::DeleteFailed
        | StackStatus::DeleteComplete
        | StackStatus::RollbackInProgress
        | StackStatus::RollbackFailed
        | StackStatus::RollbackComplete => Classification::Failure,
        _ => Classification::Transient,
    }
}

/// What one reading of the stack decides during the settlement wait.
pub open spec fn stack_wait_decision(observed: Result<StackStatus, Cause>) -> PollOutcomeView {
    poll_decision(
        match observed {
            Ok(status) => Ok(settlement(status)),
            Err(cause) => Err(call_failed(ErrorKind::DescribeStacksError, cause@)),
        },
    )
}

/// One step of waiting for the stack to settle after a create or update.
///
/// `observed` is what describing the stack gave: its status, or the report
/// of the call that failed. A status in the success set ends the wait; one
/// in the failure set fails it at once, without a sleep; any other status
/// asks for one sleep of the poll interval and another reading. A failed
/// call is never retried.
pub fn wait_for_stack(observed: Result<StackStatus, Cause>) -> (r: PollOutcome)
    ensures
        r@ == stack_wait_decision(observed),
        observed matches Ok(status) && in_success_set(status) ==> r@ == PollOutcomeView::Settled,
        observed matches Ok(status) && in_failure_set(status) ==> r@ == PollOutcomeView::Failed(
            unusable_state(),
        ),
        observed matches Ok(status) && !in_success_set(status) && !in_failure_set(status) ==> r@
            == (PollOutcomeView::Retry { after_secs: POLL_INTERVAL_SECS }),
        observed matches Err(cause) ==> r@ == PollOutcomeView::Failed(
            call_failed(ErrorKind::DescribeStacksError, cause@),
        ),
{
    match observed {
        Ok(status) => poll_step(Ok(classify_stack_status(status))),
        Err(cause) => poll_step(Err(Error::DescribeStacksError { source: cause })),
    }
}

/// What the provider's report says when the stack that was asked about is
/// not there.
pub open spec fn says_missing(message: Seq<char>) -> bool {
    occurs_in("does not exist"@, message)
}

/// What probing the stack finds: `Ok(true)` for a stack that exists and can
/// be updated, `Ok(false)` for none, and an error for a stack in any other
/// state or a call that failed for another reason.
pub open spec fn probe_result(observed: Result<StackStatus, Cause>) -> Result<bool, ErrorView> {
    match observed {
        Ok(status) => if is_usable(status) {
            Ok(true)
        } else {
            Err(unusable_state())
        },
        Err(cause) => if says_missing(cause@.message) {
            Ok(false)
        } else {
            Err(call_failed(ErrorKind::DescribeStacksError, cause@))
        },
    }
}

/// Judges one reading of the stack before any change is asked for.
///
/// Returns `Ok(true)` when the stack exists in a state that takes an update,
/// `Ok(false)` when the provider reports that it does not exist, the
/// unusable-state error for a stack in any other status, and the
/// describe error for any other failed call.
pub fn stack_exists_and_is_complete(observed: Result<StackStatus, Cause>) -> (r: Result<
    bool,
    Error,
>)
    ensures
        match r {
            Ok(b) => probe_result(observed) == Ok::<bool, ErrorView>(b),
            Err(e) => probe_result(observed) == Err::<bool, ErrorView>(e@),
        },
{
    match observed {
        Ok(status) => match status {
            StackStatus::CreateComplete
            | StackStatus::UpdateComplete
            | StackStatus::UpdateRollbackComplete => Ok(true),
            _ => Err(Error::UnusableStackStatus),
        },
        Err(cause) => {
            if contains(cause.message.as_str(), "does not exist") {
                Ok(false)
            } else {
                Err(Error::DescribeStacksError { source: cause })
            }
        },
    }
}

/// Which change a stack request asks for.
#[derive(Clone, Copy, Debug, PartialEq, Eq, Structural)]
pub enum StackOperation {
    Create,
    Update,
}

/// One template parameter.
#[derive(Clone, Debug, PartialEq, Eq)]
pub struct Parameter {
    pub key: String,
    pub value: String,
}

/// A request to create or update the stack from a template.
#[derive(Clone, Debug, PartialEq, Eq)]
pub struct StackRequest {
    pub operation: StackOperation,
    pub stack_name: String,
    pub template_body: String,
    pub parameters: Vec<Parameter>,
}

/// The mathematical value of a [`StackRequest`]: its parameters are pairs of
/// key and value, in the order they are sent.
pub struct StackRequestView {
    pub operation: StackOperation,
    pub stack_name: Seq<char>,
    pub template_body: Seq<char>,
    pub parameters: Seq<(Seq<char>, Seq<char>)>,
}

impl View for StackRequest {
    type V = StackRequestView;

    open spec fn view(&self) -> StackRequestView {
        StackRequestView {
            operation: self.operation,
            stack_name: self.stack_name@,
            template_body: self.template_body@,
            parameters: Seq::new(
                self.parameters@.len(),
                |i: int| (self.parameters@[i].key@, self.parameters@[i].value@),
            ),
        }
    }
}

/// The request that creates or updates the site's stack: the template is
/// handed on as it is, with the zone identifier and the domain name as its
/// two parameters.
pub open spec fn stack_request(
    operation: StackOperation,
    stack_name: Seq<char>,
    stack_body: Seq<char>,
    zone_id: Seq<char>,
    domain_name: Seq<char>,
) -> StackRequestView {
    StackRequestView {
        operation,
        stack_name,
        template_body: stack_body,
        parameters: seq![("HostedZoneId"@, zone_id), ("DomainName"@, domain_name)],
    }
}

fn build_request(
    operation: StackOperation,
    stack_name: &String,
    stack_body: &String,
    zone_id: &String,
    domain_name: &String,
) -> (r: StackRequest)
    ensures
        r@ == stack_request(operation, stack_name@, stack_body@, zone_id@, domain_name@),
{
    let mut parameters: Vec<Parameter> = Vec::new();
    parameters.push(Parameter { key: "HostedZoneId".to_owned(), value: zone_id.clone() });
    parameters.push(Parameter { key: "DomainName".to_owned(), value: domain_name.clone() });
    let r = StackRequest {
        operation,
        stack_name: stack_name.clone(),
        template_body: stack_body.clone(),
        parameters,
    };
    assert(r@.parameters =~= seq![("HostedZoneId"@, zone_id@), ("DomainName"@, domain_name@)]);
    r
}

/// The request that creates the site's stack.
pub fn create_stack(
    stack_name: &String,
    stack_body: &String,
    zone_id: &String,
    domain_name: &String,
) -> (r: StackRequest)
    ensures
        r@ == stack_request(
            StackOperation::Create,
            stack_name@,
            stack_body@,
            zone_id@,
            domain_name@,
        ),
{
    build_request(StackOperation::Create, stack_name, stack_body, zone_id, domain_name)
}

/// The request that updates the site's stack.
pub fn update_stack(
    stack_name: &String,
    stack_body: &String,
    zone_id: &String,
    domain_name: &String,
) -> (r: StackRequest)
    ensures
        r@ == stack_request(
            StackOperation::Update,
            stack_name@,
            stack_body@,
            zone_id@,
            domain_name@,
        ),
{
    build_request(StackOperation::Update, stack_name, stack_body, zone_id, domain_name)
}

/// What the provider's report says when an update would change nothing.
pub open spec fn says_no_changes(detail: Seq<char>) -> bool {
    occurs_in("No updates are to be performed."@, detail)
}

/// Whether an update request counts as accepted: it does when the provider
/// accepted it, and also when it refused because nothing would change.
pub open spec fn update_result(response: Result<(), Cause>) -> Result<(), ErrorView> {
    match response {
        Ok(_) => Ok(()),
        Err(cause) => if says_no_changes(cause@.detail) {
            Ok(())
        } else {
            Err(call_failed(ErrorKind::UpdateStackError, cause@))
        },
    }
}

/// Judges the provider's answer to an update request.
///
/// Deploying again over unchanged infrastructure must succeed, so a refusal
/// that says there is nothing to update counts as success. Any other refusal
/// comes back as the update error, with the provider's report unchanged.
pub fn update_stack_outcome(response: Result<(), Cause>) -> (r: Result<(), Error>)
    ensures
        match r {
            Ok(_) => update_result(response) is Ok,
            Err(e) => update_result(response) == Err::<(), ErrorView>(e@),
        },
        match response {
            Ok(_) => r is Ok,
            Err(cause) => if says_no_changes(cause@.detail) {
                r is Ok
            } else {
                r matches Err(e) && e@ == call_failed(ErrorKind::UpdateStackError, cause@)
            },
        },
{
    match response {
        Ok(_) => Ok(()),
        Err(cause) => {
            if contains(cause.detail.as_str(), "No updates are to be performed.") {
                Ok(())
            } else {
                Err(Error::UpdateStackError { source: cause })
            }
        },
    }
}

/// Judges the provider's answer to a create request: the new stack's
/// identifier, or the create error with the provider's report.
pub fn create_stack_outcome(response: Result<String, Cause>) -> (r: Result<String, Error>)
    ensures
        match response {
            Ok(id) => r matches Ok(got) && got@ == id@,
            Err(cause) => r matches Err(e) && e@ == call_failed(
                ErrorKind::CreateStackError,
                cause@,
            ),
        },
{
    match response {
        Ok(id) => Ok(id),
        Err(cause) => Err(Error::CreateStackError { source: cause }),
    }
}

/// One named value that a settled stack publishes.
#[derive(Clone, Debug, PartialEq, Eq)]
pub struct StackOutput {
    pub key: String,
    pub value: String,
}

/// The value of the first output whose key is `name`.
pub open spec fn first_output(outputs: Seq<StackOutput>, name: Seq<char>) -> Option<Seq<char>>
    decreases outputs.len(),
{
    if outputs.len() == 0 {
        None
    } else if outputs[0].key@ == name {
        Some(outputs[0].value@)
    } else {
        first_output(outputs.drop_first(), name)
    }
}

/// What reading one output from a description of the stack gives.
pub open spec fn output_result(
    described: Result<Vec<StackOutput>, Cause>,
    name: Seq<char>,
) -> Result<Seq<char>, ErrorView> {
    match described {
        Ok(outputs) => match first_output(outputs@, name) {
            Some(value) => Ok(value),
            None => Err(ErrorView { kind: ErrorKind::StackOutputNotFound, source: None }),
        },
        Err(cause) => Err(call_failed(ErrorKind::DescribeStacksError, cause@)),
    }
}

/// Looks up the first output whose key is `name`.
pub fn find_output(outputs: &Vec<StackOutput>, name: &str) -> (r: Option<String>)
    ensures
        match r {
            Some(value) => first_output(outputs@, name@) == Some(value@),
            None => first_output(outputs@, name@) is None,
        },
{
    let mut i: usize = 0;
    assert(outputs@.skip(0) =~= outputs@);
    while i < outputs.len()
        invariant
            i <= outputs@.len(),
            first_output(outputs@, name@) == first_output(outputs@.skip(i as int), name@),
        decreases outputs@.len() - i,
    {
        assert(outputs@.skip(i as int)[0] == outputs@[i as int]);
        if text_eq(outputs[i].key.as_str(), name) {
            return Some(outputs[i].value.clone());
        }
        assert(outputs@.skip(i as int).drop_first() =~= outputs@.skip(i + 1));
        i += 1;
    }
    None
}

/// Reads one output of a settled stack.
///
/// `described` is what describing the stack gave: its outputs, or the report
/// of the call that failed. Returns the value of the first output whose key
/// is `output_name`, the output-not-found error when there is none, and the
/// describe error when the call failed.
pub fn get_stack_output(described: &Result<Vec<StackOutput>, Cause>, output_name: &str) -> (r:
    Result<String, Error>)
    ensures
        match r {
            Ok(value) => output_result(*described, output_name@) == Ok::<Seq<char>, ErrorView>(
                value@,
            ),
            Err(e) => output_result(*described, output_name@) == Err::<Seq<char>, ErrorView>(e@),
        },
{
    match described {
        Ok(outputs) => match find_output(outputs, output_name) {
            Some(value) => Ok(value),
            None => Err(Error::StackOutputNotFound),
        },
        Err(cause) => Err(Error::DescribeStacksError { source: cause.duplicate() }),
    }
}

} // verus!
