//! Clearing the CDN's cache: the request that invalidates everything, and
//! how each reading of its status is judged.

use vstd::prelude::*;
use crate::error::{call_failed, Cause, Error, ErrorKind};
use crate::poller::{poll_decision, poll_step, Classification, PollOutcome, PollOutcomeView, POLL_INTERVAL_SECS};
use crate::text::{decimal, lemma_decimal_injective, text_eq, to_decimal};

verus! {

/// A request to invalidate cached content of one distribution.
#[derive(Clone, Debug, PartialEq, Eq)]
pub struct InvalidationRequest {
    pub distribution_id: String,
    /// Tells this request from every other one the caller ever made.
    pub caller_reference: String,
    /// The path patterns to invalidate.
    pub paths: Vec<String>,
    /// How many path patterns there are.
    pub quantity: i32,
}

/// The mathematical value of an [`InvalidationRequest`].
pub struct InvalidationRequestView {
    pub distribution_id: Seq<char>,
    pub caller_reference: Seq<char>,
    pub paths: Seq<Seq<char>>,
    pub quantity: int,
}

impl View for InvalidationRequest {
    type V = InvalidationRequestView;

    open spec fn view(&self) -> InvalidationRequestView {
        InvalidationRequestView {
            distribution_id: self.distribution_id@,
            caller_reference: self.caller_reference@,
            paths: Seq::new(self.paths@.len(), |i: int| self.paths@[i]@),
            quantity: self.quantity as int,
        }
    }
}

/// The request that invalidates the whole content of a distribution at the
/// given time: one path pattern, `/*`, and the time in milliseconds, written
/// in base ten, as the caller's reference.
pub open spec fn invalidation_request(
    distribution_id: Seq<char>,
    now_millis: nat,
) -> InvalidationRequestView {
    InvalidationRequestView {
        distribution_id,
        caller_reference: decimal(now_millis),
        paths: seq!["/*"@],
        quantity: 1,
    }
}

/// Builds the request that invalidates every object of the distribution.
///
/// `now_millis` is the wall-clock time in milliseconds since the Unix epoch;
/// it becomes the caller's reference, so that a later invalidation is never
/// taken for a repetition of this one.
pub fn invalidate_distribution(distribution_id: &String, now_millis: u128) -> (r:
    InvalidationRequest)
    ensures
        r@ == invalidation_request(distribution_id@, now_millis as nat),
{
    let mut paths: Vec<String> = Vec::new();
    paths.push("/*".to_owned());
    let r = InvalidationRequest {
        distribution_id: distribution_id.clone(),
        caller_reference: to_decimal(now_millis),
        paths,
        quantity: 1,
    };
    assert(r@.paths =~= seq!["/*"@]);
    r
}

/// Requests made at different times carry different references.
pub proof fn lemma_references_distinct(distribution_id: Seq<char>, earlier: nat, later: nat)
    requires
        earlier != later,
    ensures
        invalidation_request(distribution_id, earlier).caller_reference != invalidation_request(
            distribution_id,
            later,
        ).caller_reference,
{
    if decimal(earlier) == decimal(later) {
        lemma_decimal_injective(earlier, later);
    }
}

/// Judges the CDN's answer to an invalidation request: the identifier of
/// the invalidation, or the create error with the CDN's report.
pub fn invalidation_outcome(response: Result<String, Cause>) -> (r: Result<String, Error>)
    ensures
        match response {
            Ok(id) => r matches Ok(got) && got@ == id@,
            Err(cause) => r matches Err(e) && e@ == call_failed(
                ErrorKind::CreateInvalidationError,
                cause@,
            ),
        },
{
    match response {
        Ok(id) => Ok(id),
        Err(cause) => Err(Error::CreateInvalidationError { source: cause }),
    }
}

/// How an invalidation status counts: exactly `Completed` is success, and
/// every other status means it is still in progress. No status is a failure.
pub open spec fn invalidation_settlement(status: Seq<char>) -> Classification {
    if status == "Completed"@ {
        Classification::Success
    } else {
        Classification::Transient
    }
}

/// Classifies an invalidation status.
pub fn classify_invalidation_status(status: &str) -> (r: Classification)
    ensures
        r == invalidation_settlement(status@),
{
    if text_eq(status, "Completed") {
        Classification::Success
    } else {
        Classification::Transient
    }
}

/// What one reading of the invalidation decides.
pub open spec fn invalidation_wait_decision(observed: Result<String, Cause>) -> PollOutcomeView {
    poll_decision(
        match observed {
            Ok(status) => Ok(invalidation_settlement(status@)),
            Err(cause) => Err(call_failed(ErrorKind::GetInvalidationError, cause@)),
        },
    )
}

/// One step of waiting for an invalidation to complete.
///
/// `observed` is what reading the invalidation gave: its status, or the
/// report of the call that failed. The status `Completed` ends the wait; any
/// other asks for one sleep of the poll interval and another reading. A
/// failed call ends the wait with the read error.
pub fn wait_for_invalidation(observed: Result<String, Cause>) -> (r: PollOutcome)
    ensures
        r@ == invalidation_wait_decision(observed),
        observed matches Ok(status) && status@ == "Completed"@ ==> r@ == PollOutcomeView::Settled,
        observed matches Ok(status) && status@ != "Completed"@ ==> r@ == (PollOutcomeView::Retry {
            after_secs: POLL_INTERVAL_SECS,
        }),
        observed matches Err(cause) ==> r@ == PollOutcomeView::Failed(
            call_failed(ErrorKind::GetInvalidationError, cause@),
        ),
{
    match observed {
        Ok(status) => poll_step(Ok(classify_invalidation_status(status.as_str()))),
        Err(cause) => poll_step(Err(Error::GetInvalidationError { source: cause })),
    }
}

} // verus!
