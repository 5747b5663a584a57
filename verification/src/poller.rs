//! Convergence polling: how one observation of a remote resource decides
//! whether to stop, fail, or wait and look again.
//!
//! The poller itself never gives up on a resource that is still changing; the
//! caller bounds the whole wait.

use vstd::prelude::*;
use crate::error::{unusable_state, Error, ErrorView};

verus! {

/// Seconds to wait between two observations of a resource that is still changing.
pub const POLL_INTERVAL_SECS: u64 = 10;

/// What one observed status means for a resource that is converging.
#[derive(Clone, Copy, Debug, PartialEq, Eq, Structural)]
pub enum Classification {
    /// The resource reached the state that was asked for.
    Success,
    /// The resource reached a terminal state that cannot be used.
    Failure,
    /// The resource is still changing.
    Transient,
}

/// What to do after one observation.
#[derive(Clone, Debug, PartialEq, Eq)]
pub enum PollOutcome {
    /// The resource settled as wanted: stop polling.
    Settled,
    /// Stop polling and fail with this error.
    Failed(Error),
    /// Sleep this many seconds, then observe again.
    Retry { after_secs: u64 },
}

/// The mathematical value of a [`PollOutcome`].
pub enum PollOutcomeView {
    Settled,
    Failed(ErrorView),
    Retry { after_secs: u64 },
}

impl View for PollOutcome {
    type V = PollOutcomeView;

    open spec fn view(&self) -> PollOutcomeView {
        match self {
            PollOutcome::Settled => PollOutcomeView::Settled,
            PollOutcome::Failed(e) => PollOutcomeView::Failed(e@),
            PollOutcome::Retry { after_secs } => PollOutcomeView::Retry { after_secs: *after_secs },
        }
    }
}

/// What one observation decides: a fetch that failed ends the wait with its
/// own error, success ends it, a terminal failure ends it with the
/// unusable-state error, and anything else waits one interval.
pub open spec fn poll_decision(observed: Result<Classification, ErrorView>) -> PollOutcomeView {
    match observed {
        Ok(Classification::Success) => PollOutcomeView::Settled,
        Ok(Classification::Failure) => PollOutcomeView::Failed(unusable_state()),
        Ok(Classification::Transient) => PollOutcomeView::Retry { after_secs: POLL_INTERVAL_SECS },
        Err(e) => PollOutcomeView::Failed(e),
    }
}

/// Decides what follows one observation of a converging resource.
pub fn poll_step(observed: Result<Classification, Error>) -> (r: PollOutcome)
    ensures
        r@ == poll_decision(
            match observed {
                Ok(c) => Ok(c),
                Err(e) => Err(e@),
            },
        ),
{
    match observed {
        Ok(Classification::Success) => PollOutcome::Settled,
        Ok(Classification::Failure) => PollOutcome::Failed(Error::UnusableStackStatus),
        Ok(Classification::Transient) => PollOutcome::Retry { after_secs: POLL_INTERVAL_SECS },
        Err(e) => PollOutcome::Failed(e),
    }
}

} // verus!
