//! The decisions around the scan: what the poll loop does with one scan
//! outcome, and what the orchestrator does with the outcome of the initial
//! blocking check.
//!
//! The two are deliberately asymmetric.  A fetch error on the initial check
//! fails open — the push proceeds with a warning, so a transient outage
//! never silently blocks development.  A fetch error inside the poll loop
//! aborts the wait with the error: a push already held back is not
//! second-guessed by ignoring a failed check mid-wait.

use crate::model::{FetchError, FetchErrorView};
use crate::scanner::{BlockingPipeline, BlockingPipelineView};
use vstd::prelude::*;

verus! {

/// What the poll loop does after one scan.
#[derive(Debug)]
pub enum PollDecision {
    /// Nothing blocks any more: the wait is over, the push may proceed.
    Cleared,
    /// Blocking persists: report the first blocking pipeline and scan again
    /// after the configured interval.
    KeepWaiting(BlockingPipeline),
    /// The scan failed: abort the wait with the error — no retry, no
    /// fail-open.
    Abort(FetchError),
}

/// The model of a [`PollDecision`].
pub enum PollDecisionView {
    Cleared,
    KeepWaiting(BlockingPipelineView),
    Abort(FetchErrorView),
}

impl View for PollDecision {
    type V = PollDecisionView;

    open spec fn view(&self) -> PollDecisionView {
        match self {
            PollDecision::Cleared => PollDecisionView::Cleared,
            PollDecision::KeepWaiting(b) => PollDecisionView::KeepWaiting(b@),
            PollDecision::Abort(e) => PollDecisionView::Abort(e@),
        }
    }
}

/// The decision the poll loop takes from one scan outcome: a fetch error
/// aborts the wait, an empty blocking list clears it, and anything else
/// keeps waiting on the first blocking pipeline reported.
pub fn poll_decision(scan: Result<Vec<BlockingPipeline>, FetchError>) -> (d: PollDecision)
    ensures
        d@ == match scan {
            Result::Err(e) => PollDecisionView::Abort(e@),
            Result::Ok(list) => if list.deep_view().len() == 0 {
                PollDecisionView::Cleared
            } else {
                PollDecisionView::KeepWaiting(list.deep_view()[0])
            },
        },
{
    match scan {
        Err(e) => PollDecision::Abort(e),
        Ok(mut list) => {
            if list.len() == 0 {
                PollDecision::Cleared
            } else {
                let first = list.remove(0);
                PollDecision::KeepWaiting(first)
            }
        },
    }
}

/// What the orchestrator does with the outcome of the initial blocking
/// check.
#[derive(Debug)]
pub enum PushDecision {
    /// Nothing blocks: push at once.
    Proceed,
    /// The check itself failed: fail open, push with a warning carrying the
    /// error.
    ProceedWithWarning(FetchError),
    /// Blocking detected and waiting was not asked for: cancel the push,
    /// reporting every blocking pipeline.
    Cancel(Vec<BlockingPipeline>),
    /// Blocking detected and waiting was asked for: enter the poll loop,
    /// starting from these blocking pipelines.
    Wait(Vec<BlockingPipeline>),
}

/// The model of a [`PushDecision`].
pub enum PushDecisionView {
    Proceed,
    ProceedWithWarning(FetchErrorView),
    Cancel(Seq<BlockingPipelineView>),
    Wait(Seq<BlockingPipelineView>),
}

impl View for PushDecision {
    type V = PushDecisionView;

    open spec fn view(&self) -> PushDecisionView {
        match self {
            PushDecision::Proceed => PushDecisionView::Proceed,
            PushDecision::ProceedWithWarning(e) => PushDecisionView::ProceedWithWarning(e@),
            PushDecision::Cancel(l) => PushDecisionView::Cancel(l.deep_view()),
            PushDecision::Wait(l) => PushDecisionView::Wait(l.deep_view()),
        }
    }
}

/// The decision the orchestrator takes from the initial blocking check: a
/// fetch error fails open into a warned push, an empty blocking list
/// authorizes the push, and a non-empty one cancels it or enters the wait,
/// as asked.
pub fn initial_decision(check: Result<Vec<BlockingPipeline>, FetchError>, wait: bool) -> (d:
    PushDecision)
    ensures
        d@ == match check {
            Result::Err(e) => PushDecisionView::ProceedWithWarning(e@),
            Result::Ok(list) => if list.deep_view().len() == 0 {
                PushDecisionView::Proceed
            } else if wait {
                PushDecisionView::Wait(list.deep_view())
            } else {
                PushDecisionView::Cancel(list.deep_view())
            },
        },
{
    match check {
        Err(e) => PushDecision::ProceedWithWarning(e),
        Ok(list) => {
            if list.len() == 0 {
                PushDecision::Proceed
            } else if wait {
                PushDecision::Wait(list)
            } else {
                PushDecision::Cancel(list)
            }
        },
    }
}

} // verus!
