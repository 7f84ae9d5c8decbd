//! System-level laws of the block-verify status machine.
//!
//! The aggregator's contract ties each call to one application of
//! [`block_step`]; these lemmas say what any whole run of matching results
//! does to a freshly created status. Every enqueued item of an accepted
//! block-verify request yields exactly one result carrying the request's id,
//! so a complete run is a sequence of exactly `required` matching outcomes;
//! prefixes of it are the states the tracker passes through.

use vstd::prelude::*;

use crate::status::{
    block_step, fresh_status, result_rank, status_wf, BlockStatusView, VerifyResult,
};
use crate::types::Outcome;

verus! {

/// Number of accepted outcomes in `rs`.
pub open spec fn count_accepted(rs: Seq<Outcome>) -> int
    decreases rs.len(),
{
    if rs.len() == 0 {
        0
    } else {
        count_accepted(rs.drop_last()) + if rs.last() == Outcome::Accepted {
            1int
        } else {
            0int
        }
    }
}

/// Number of failing (non-accepted) outcomes in `rs`.
pub open spec fn count_failing(rs: Seq<Outcome>) -> int
    decreases rs.len(),
{
    if rs.len() == 0 {
        0
    } else {
        count_failing(rs.drop_last()) + if rs.last() != Outcome::Accepted {
            1int
        } else {
            0int
        }
    }
}

/// Drive the status through one result after another, collecting every
/// published block-verify outcome in order.
pub open spec fn run_block_results(st: BlockStatusView, request_id: u64, rs: Seq<Outcome>) -> (
    BlockStatusView,
    Seq<Outcome>,
)
    decreases rs.len(),
{
    if rs.len() == 0 {
        (st, Seq::empty())
    } else {
        let prev = run_block_results(st, request_id, rs.drop_last());
        let stepped = block_step(prev.0, request_id, rs.last());
        (
            stepped.0,
            match stepped.1 {
                Option::Some(oc) => prev.1.push(oc),
                Option::None => prev.1,
            },
        )
    }
}

proof fn lemma_counts(rs: Seq<Outcome>)
    ensures
        count_accepted(rs) >= 0,
        count_failing(rs) >= 0,
        count_accepted(rs) + count_failing(rs) == rs.len(),
    decreases rs.len(),
{
    if rs.len() > 0 {
        lemma_counts(rs.drop_last());
    }
}

proof fn lemma_all_accepted(rs: Seq<Outcome>)
    requires
        count_failing(rs) == 0,
    ensures
        forall|i: int| 0 <= i < rs.len() ==> rs[i] == Outcome::Accepted,
    decreases rs.len(),
{
    if rs.len() > 0 {
        lemma_counts(rs.drop_last());
        lemma_all_accepted(rs.drop_last());
        assert forall|i: int| 0 <= i < rs.len() implies rs[i] == Outcome::Accepted by {
            if i < rs.len() - 1 {
                assert(rs.drop_last()[i] == rs[i]);
            } else {
                assert(rs.last() == rs[i]);
            }
        }
    }
}

/// Full characterization of a run from a fresh status. While results keep
/// arriving accepted and short of the required count, the status stays
/// `VerifyOngoing` with the captured count equal to the results seen, and
/// nothing is published. The first failing result publishes itself, moves
/// the status to `VerifyFailed` for good and freezes the captured count at
/// the accepted results seen while ongoing. A complete all-accepted run
/// publishes success exactly at the last result. The status stays
/// well-formed throughout: captured never exceeds required.
pub proof fn lemma_block_run(request_id: u64, required: int, rs: Seq<Outcome>)
    requires
        0 < required,
        rs.len() <= required,
    ensures
        ({
            let r = run_block_results(fresh_status(request_id, required), request_id, rs);
            &&& r.0.request_id == request_id
            &&& r.0.required == required
            &&& status_wf(r.0)
            &&& (count_failing(rs) == 0 && rs.len() < required ==> r.0.result
                == VerifyResult::VerifyOngoing && r.0.captured == rs.len() && r.1
                =~= Seq::<Outcome>::empty())
            &&& (count_failing(rs) == 0 && rs.len() == required ==> r.0.result
                == VerifyResult::VerifySucceeded && r.0.captured == required && r.1 =~= seq![
                Outcome::Accepted,
            ])
            &&& (count_failing(rs) > 0 ==> r.0.result == VerifyResult::VerifyFailed && (exists|
                j: int,
            |
                0 <= j < rs.len() && rs[j] != Outcome::Accepted && r.0.captured == j && r.1
                    =~= seq![rs[j]] && (forall|p: int| 0 <= p < j ==> rs[p] == Outcome::Accepted)))
        }),
    decreases rs.len(),
{
    lemma_counts(rs);
    if rs.len() > 0 {
        let prefix = rs.drop_last();
        let last = rs.last();
        lemma_block_run(request_id, required, prefix);
        lemma_counts(prefix);
        let pr = run_block_results(fresh_status(request_id, required), request_id, prefix);
        let r = run_block_results(fresh_status(request_id, required), request_id, rs);
        if count_failing(prefix) == 0 {
            // the prefix is still ongoing: prefix.len() < required always
            lemma_all_accepted(prefix);
            if last == Outcome::Accepted {
                if rs.len() == required {
                    assert(r.1 =~= seq![Outcome::Accepted]);
                } else {
                    assert(r.1 =~= Seq::<Outcome>::empty());
                }
            } else {
                let j = rs.len() - 1;
                assert forall|p: int| 0 <= p < j implies rs[p] == Outcome::Accepted by {
                    assert(prefix[p] == rs[p]);
                }
                assert(rs[j] != Outcome::Accepted && r.0.captured == j && r.1 =~= seq![rs[j]] && (
                forall|p: int| 0 <= p < j ==> rs[p] == Outcome::Accepted));
            }
        } else {
            // the prefix already failed: the tracked result is terminal, so
            // this step is a no-op whatever the last outcome is
            let j = choose|j: int|
                0 <= j < prefix.len() && prefix[j] != Outcome::Accepted && pr.0.captured == j
                    && pr.1 =~= seq![prefix[j]] && (forall|p: int|
                    0 <= p < j ==> prefix[p] == Outcome::Accepted);
            assert(pr.0.result == VerifyResult::VerifyFailed);
            assert(r.0 == pr.0 && r.1 == pr.1);
            assert(rs[j] == prefix[j]);
            assert forall|p: int| 0 <= p < j implies rs[p] == Outcome::Accepted by {
                assert(prefix[p] == rs[p]);
            }
            assert(rs[j] != Outcome::Accepted && r.0.captured == j && r.1 =~= seq![rs[j]] && (
            forall|p: int| 0 <= p < j ==> rs[p] == Outcome::Accepted));
        }
    }
}

proof fn lemma_count_prefix(rs: Seq<Outcome>, n: int)
    requires
        0 <= n <= rs.len(),
    ensures
        count_accepted(rs.subrange(0, n)) <= count_accepted(rs),
        count_failing(rs.subrange(0, n)) <= count_failing(rs),
    decreases rs.len() - n,
{
    if n == rs.len() {
        assert(rs.subrange(0, n) =~= rs);
    } else {
        lemma_count_prefix(rs.drop_last(), n);
        assert(rs.drop_last().subrange(0, n) =~= rs.subrange(0, n));
    }
}

/// Exactly one block-verify response is published over any complete run of
/// an accepted (non-empty) request: all results accepted publishes success,
/// any failure publishes the first failing outcome and nothing else.
pub proof fn lemma_exactly_one_publish(request_id: u64, required: int, rs: Seq<Outcome>)
    requires
        0 < required,
        rs.len() == required,
    ensures
        ({
            let r = run_block_results(fresh_status(request_id, required), request_id, rs);
            &&& r.1.len() == 1
            &&& (count_failing(rs) == 0 ==> r.1[0] == Outcome::Accepted && r.0.result
                == VerifyResult::VerifySucceeded)
            &&& (count_failing(rs) > 0 ==> r.0.result == VerifyResult::VerifyFailed && (exists|
                j: int,
            |
                0 <= j < rs.len() && rs[j] != Outcome::Accepted && r.1[0] == rs[j] && (forall|
                    p: int,
                | 0 <= p < j ==> rs[p] == Outcome::Accepted)))
        }),
{
    lemma_block_run(request_id, required, rs);
    lemma_counts(rs);
}

/// Along any run of a request's results, the captured count never exceeds
/// the required count and never shrinks, and the result only moves forward
/// along `VerifyOngoing -> {VerifyFailed | VerifySucceeded}`: a terminal
/// state is never left.
pub proof fn lemma_status_forward(request_id: u64, required: int, rs: Seq<Outcome>, n: int)
    requires
        0 < required,
        rs.len() <= required,
        0 <= n <= rs.len(),
    ensures
        ({
            let a = run_block_results(
                fresh_status(request_id, required),
                request_id,
                rs.subrange(0, n),
            );
            let b = run_block_results(fresh_status(request_id, required), request_id, rs);
            &&& status_wf(a.0)
            &&& 0 <= a.0.captured <= a.0.required
            &&& a.0.captured <= b.0.captured
            &&& result_rank(fresh_status(request_id, required).result) <= result_rank(a.0.result)
                <= result_rank(b.0.result)
            &&& (a.0.result == VerifyResult::VerifyFailed ==> b.0.result
                == VerifyResult::VerifyFailed)
            &&& (a.0.result == VerifyResult::VerifySucceeded ==> b.0.result
                == VerifyResult::VerifySucceeded)
        }),
{
    let sub = rs.subrange(0, n);
    let a = run_block_results(fresh_status(request_id, required), request_id, sub);
    let b = run_block_results(fresh_status(request_id, required), request_id, rs);
    lemma_block_run(request_id, required, sub);
    lemma_block_run(request_id, required, rs);
    lemma_counts(sub);
    lemma_counts(rs);
    lemma_count_prefix(rs, n);
    assert(forall|p: int| 0 <= p < n ==> sub[p] == rs[p]);
    if count_failing(sub) == 0 {
        lemma_all_accepted(sub);
        if sub.len() == required {
            assert(n == rs.len());
            assert(sub =~= rs);
        } else if count_failing(rs) > 0 {
            // the first n results of rs are all accepted, so the first
            // failure of rs, which freezes the captured count, is at or
            // after n
            let j = choose|j: int|
                0 <= j < rs.len() && rs[j] != Outcome::Accepted && b.0.captured == j && b.1
                    =~= seq![rs[j]] && (forall|p: int| 0 <= p < j ==> rs[p] == Outcome::Accepted);
            if j < n {
                assert(sub[j] == rs[j]);
                assert(false);
            }
        }
    } else {
        // both runs fail, at the same first failure index
        let j = choose|j: int|
            0 <= j < sub.len() && sub[j] != Outcome::Accepted && a.0.captured == j && a.1 =~= seq![
                sub[j],
            ] && (forall|p: int| 0 <= p < j ==> sub[p] == Outcome::Accepted);
        let jb = choose|j: int|
            0 <= j < rs.len() && rs[j] != Outcome::Accepted && b.0.captured == j && b.1 =~= seq![
                rs[j],
            ] && (forall|p: int| 0 <= p < j ==> rs[p] == Outcome::Accepted);
        if j < jb {
            assert(rs[j] == sub[j]);
            assert(false);
        }
        if jb < j {
            assert(sub[jb] == rs[jb]);
            assert(false);
        }
    }
}

/// A result whose block-request-id does not match the tracked one changes
/// nothing and publishes nothing, whatever its outcome: results of a
/// superseded block-verify request are discarded.
pub proof fn lemma_stale_result_ignored(st: BlockStatusView, request_id: u64, oc: Outcome)
    requires
        request_id != st.request_id,
    ensures
        block_step(st, request_id, oc) == (st, Option::<Outcome>::None),
{
}

/// A terminal tracked result is final: once `VerifyFailed` or
/// `VerifySucceeded`, any further result — matching id or not, accepted or
/// not — changes nothing and publishes nothing. The result never moves
/// backward nor between terminal states, and at most one publish ever
/// happens per tracked id.
pub proof fn lemma_terminal_is_final(st: BlockStatusView, request_id: u64, oc: Outcome)
    requires
        st.result == VerifyResult::VerifyFailed || st.result == VerifyResult::VerifySucceeded,
    ensures
        block_step(st, request_id, oc) == (st, Option::<Outcome>::None),
{
}

/// One step never lowers the result's position on the forward chain, never
/// lowers the captured count, and never touches the request id, the required
/// count or the cache-hit count.
pub proof fn lemma_step_forward(st: BlockStatusView, request_id: u64, oc: Outcome)
    ensures
        ({
            let stepped = block_step(st, request_id, oc);
            &&& result_rank(st.result) <= result_rank(stepped.0.result)
            &&& st.captured <= stepped.0.captured
            &&& stepped.0.request_id == st.request_id
            &&& stepped.0.required == st.required
            &&& stepped.0.cache_hit == st.cache_hit
        }),
{
}

} // verus!
