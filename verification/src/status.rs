//! Per-block verification progress.
//!
//! Exactly one `BlockVerifyStatus` is live at a time; a new block-verify
//! request replaces it wholesale. The result aggregator drives it through the
//! step relation `block_step`: a first failing result moves it to
//! `VerifyFailed` and publishes that outcome once; when the captured count of
//! accepted results reaches the required count it moves to `VerifySucceeded`
//! and publishes once. Results whose block-request-id does not match the
//! tracked id are ignored.

use vstd::prelude::*;

use crate::types::Outcome;

verus! {

/// Progress of the in-flight block verification.
#[derive(Clone, Copy, Debug, PartialEq, Eq, Structural)]
pub enum VerifyResult {
    VerifyNotBegin,
    VerifyOngoing,
    VerifyFailed,
    VerifySucceeded,
}

/// Status of the one in-flight block-verify request: its id, its result so
/// far, how many accepted per-transaction results it needs, how many it has
/// captured, and how many of its items were answered from the cache.
#[derive(Clone, Copy, Debug, PartialEq, Eq, Structural)]
pub struct BlockVerifyStatus {
    pub request_id: u64,
    pub block_verify_result: VerifyResult,
    pub verify_success_cnt_required: usize,
    pub verify_success_cnt_capture: usize,
    pub cache_hit: usize,
}

/// Mathematical value of a [`BlockVerifyStatus`], with unbounded counts.
pub ghost struct BlockStatusView {
    pub request_id: u64,
    pub result: VerifyResult,
    pub required: int,
    pub captured: int,
    pub cache_hit: int,
}

impl View for BlockVerifyStatus {
    type V = BlockStatusView;

    open spec fn view(&self) -> BlockStatusView {
        BlockStatusView {
            request_id: self.request_id,
            result: self.block_verify_result,
            required: self.verify_success_cnt_required as int,
            captured: self.verify_success_cnt_capture as int,
            cache_hit: self.cache_hit as int,
        }
    }
}

impl BlockVerifyStatus {
    /// The status before any block-verify request has arrived.
    pub fn initial() -> (r: Self)
        ensures
            r@ == (BlockStatusView {
                request_id: 0,
                result: VerifyResult::VerifyNotBegin,
                required: 0,
                captured: 0,
                cache_hit: 0,
            }),
    {
        BlockVerifyStatus {
            request_id: 0,
            block_verify_result: VerifyResult::VerifyNotBegin,
            verify_success_cnt_required: 0,
            verify_success_cnt_capture: 0,
            cache_hit: 0,
        }
    }
}

/// The status a freshly accepted block-verify request starts from.
pub open spec fn fresh_status(request_id: u64, required: int) -> BlockStatusView {
    BlockStatusView {
        request_id: request_id,
        result: VerifyResult::VerifyOngoing,
        required: required,
        captured: 0,
        cache_hit: 0,
    }
}

/// How one completed block-kind result moves the status, and what it
/// publishes: the new status and the outcome of the block-verify response
/// sent downstream, if this step publishes one.
///
/// A result is acted on only while the tracked result is `VerifyOngoing` and
/// its id matches the tracked id: a failing result moves the status to
/// `VerifyFailed` and publishes that outcome (first failure wins); an
/// accepted result raises the captured count, and reaching the required
/// count moves it to `VerifySucceeded` and publishes success. Everything
/// else — a stale id, or any result arriving after a terminal state —
/// changes nothing and publishes nothing: a terminal result is final, and at
/// most one response is ever published per tracked id.
pub open spec fn block_step(st: BlockStatusView, request_id: u64, oc: Outcome) -> (
    BlockStatusView,
    Option<Outcome>,
) {
    if request_id != st.request_id || st.result != VerifyResult::VerifyOngoing {
        (st, None)
    } else if oc != Outcome::Accepted {
        (BlockStatusView { result: VerifyResult::VerifyFailed, ..st }, Some(oc))
    } else {
        let st2 = BlockStatusView { captured: st.captured + 1, ..st };
        if st2.captured == st2.required {
            (
                BlockStatusView { result: VerifyResult::VerifySucceeded, ..st2 },
                Some(Outcome::Accepted),
            )
        } else {
            (st2, None)
        }
    }
}

/// Well-formedness of a tracked status: the captured count never exceeds the
/// required count, and while verification is ongoing it is strictly below it
/// (reaching the required count is exactly what ends the run). Freshly
/// created statuses satisfy it, and [`block_step`] preserves it.
pub open spec fn status_wf(st: BlockStatusView) -> bool {
    &&& 0 <= st.captured <= st.required
    &&& (st.result == VerifyResult::VerifyOngoing ==> st.captured < st.required)
}

/// One step keeps a well-formed status well-formed: in particular the
/// captured count stays at most the required count at all times.
pub proof fn lemma_step_preserves_wf(st: BlockStatusView, request_id: u64, oc: Outcome)
    requires
        status_wf(st),
    ensures
        status_wf(block_step(st, request_id, oc).0),
{
}

/// Position of a result state along the forward chain
/// `VerifyNotBegin -> VerifyOngoing -> {VerifyFailed | VerifySucceeded}`.
pub open spec fn result_rank(r: VerifyResult) -> int {
    match r {
        VerifyResult::VerifyNotBegin => 0,
        VerifyResult::VerifyOngoing => 1,
        VerifyResult::VerifyFailed => 2,
        VerifyResult::VerifySucceeded => 2,
    }
}

} // verus!
