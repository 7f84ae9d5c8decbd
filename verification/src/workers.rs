//! Per-request verification rule and batch worker service.
//!
//! The cryptographic work itself — duplicate-index lookup, signature
//! recovery — is done by the external verifier capability; its answers for
//! one request arrive here as a plain [`VerifierAnswer`]. The library then
//! decides the outcome: known hash gives `Dup` (or `NotReady` while the
//! capability is still catching up), a failed recovery gives `BadSig`, a
//! recovered signer that contradicts a non-empty expected signer gives
//! `BadSig`, and everything else is `Accepted` with the recovered signer
//! attached. The batch service applies the rule to every drained item,
//! write-through-inserts each response into the dedup cache (failures
//! included, as negative caching), and hands the tagged results back for the
//! shared result stream.

use vstd::prelude::*;

use crate::bytemap::ByteKeyedMap;
use crate::types::{
    clone_bytes, bytes_eq, Outcome, VerifyRequestView, VerifyReqInfo, VerifyRespInfo,
    VerifyResponse, VerifyResponseView,
};

verus! {

/// The external verifier capability's answers for one request: whether the
/// hash is already known, whether the capability is fully initialized, and
/// the recovered signer of a successful signature check (`None` when the
/// signature is invalid).
pub struct VerifierAnswer {
    pub hash_known: bool,
    pub inited: bool,
    pub recovered_signer: Option<Vec<u8>>,
}

/// Mathematical value of a [`VerifierAnswer`].
pub ghost struct VerifierAnswerView {
    pub hash_known: bool,
    pub inited: bool,
    pub recovered_signer: Option<Seq<u8>>,
}

impl View for VerifierAnswer {
    type V = VerifierAnswerView;

    open spec fn view(&self) -> VerifierAnswerView {
        VerifierAnswerView {
            hash_known: self.hash_known,
            inited: self.inited,
            recovered_signer: match self.recovered_signer {
                Option::None => Option::None,
                Option::Some(ref s) => Option::Some(s@),
            },
        }
    }
}

/// Outcome of one request under the verifier's answers.
pub open spec fn verify_outcome(req: VerifyRequestView, ans: VerifierAnswerView) -> Outcome {
    if ans.hash_known {
        if ans.inited {
            Outcome::Dup
        } else {
            Outcome::NotReady
        }
    } else {
        match ans.recovered_signer {
            Option::None => Outcome::BadSig,
            Option::Some(s) => if req.signer.len() > 0 && req.signer != s {
                Outcome::BadSig
            } else {
                Outcome::Accepted
            },
        }
    }
}

/// Signer attached to the response: the recovered signer on `Accepted`,
/// empty otherwise.
pub open spec fn response_signer(req: VerifyRequestView, ans: VerifierAnswerView) -> Seq<u8> {
    if verify_outcome(req, ans) == Outcome::Accepted {
        ans.recovered_signer.unwrap()
    } else {
        Seq::empty()
    }
}

/// The full response one request gets under the verifier's answers.
pub open spec fn response_of(req: VerifyRequestView, ans: VerifierAnswerView)
    -> VerifyResponseView {
    VerifyResponseView {
        tx_hash: req.tx_hash,
        ret: verify_outcome(req, ans),
        signer: response_signer(req, ans),
    }
}

/// Decide one request from the verifier capability's answers.
pub fn verfiy_tx(req: &crate::types::VerifyRequest, ans: &VerifierAnswer) -> (resp: VerifyResponse)
    ensures
        resp@ == response_of(req@, ans@),
{
    let tx_hash = clone_bytes(&req.tx_hash);
    if ans.hash_known {
        if ans.inited {
            VerifyResponse { tx_hash, ret: Outcome::Dup, signer: Vec::new() }
        } else {
            VerifyResponse { tx_hash, ret: Outcome::NotReady, signer: Vec::new() }
        }
    } else {
        match &ans.recovered_signer {
            Option::None => VerifyResponse { tx_hash, ret: Outcome::BadSig, signer: Vec::new() },
            Option::Some(recovered) => {
                if req.signer.len() > 0 && !bytes_eq(&req.signer, recovered) {
                    VerifyResponse { tx_hash, ret: Outcome::BadSig, signer: Vec::new() }
                } else {
                    VerifyResponse { tx_hash, ret: Outcome::Accepted, signer: clone_bytes(recovered) }
                }
            },
        }
    }
}

/// The dedup cache after the batch's write-through inserts, one per item in
/// order; a later item under the same hash overrides an earlier one.
pub open spec fn cache_after_group(
    m: Map<Seq<u8>, VerifyResponseView>,
    grp: Seq<VerifyReqInfo>,
    answers: Seq<VerifierAnswer>,
) -> Map<Seq<u8>, VerifyResponseView>
    decreases grp.len(),
{
    if grp.len() == 0 {
        m
    } else {
        cache_after_group(m, grp.drop_last(), answers.drop_last()).insert(
            grp.last().req@.tx_hash,
            response_of(grp.last().req@, answers.last()@),
        )
    }
}

/// Drain one batch: decide every item from its verifier answers, insert every
/// response into the dedup cache (failures included), and return the tagged
/// results for the shared result stream. Results keep their item's metadata;
/// their order carries no meaning downstream, results are matched by hash or
/// block-request-id.
pub fn verify_tx_group_service(
    req_grp: Vec<VerifyReqInfo>,
    answers: Vec<VerifierAnswer>,
    cache: &mut ByteKeyedMap<VerifyResponse>,
) -> (results: Vec<VerifyRespInfo>)
    requires
        answers@.len() == req_grp@.len(),
        old(cache).wf(),
    ensures
        final(cache).wf(),
        final(cache)@ == cache_after_group(old(cache)@, req_grp@, answers@),
        results@.len() == req_grp@.len(),
        forall|i: int|
            0 <= i < req_grp@.len() ==> #[trigger] results@[i].resp@ == response_of(
                req_grp@[i].req@,
                answers@[i]@,
            ) && results@[i].info == req_grp@[i].info,
{
    let mut results: Vec<VerifyRespInfo> = Vec::new();
    let mut i: usize = 0;
    while i < req_grp.len()
        invariant
            answers@.len() == req_grp@.len(),
            i <= req_grp@.len(),
            cache.wf(),
            cache@ == cache_after_group(old(cache)@, req_grp@.subrange(0, i as int), answers@.subrange(0, i as int)),
            results@.len() == i,
            forall|j: int|
                0 <= j < i ==> #[trigger] results@[j].resp@ == response_of(
                    req_grp@[j].req@,
                    answers@[j]@,
                ) && results@[j].info == req_grp@[j].info,
        decreases req_grp@.len() - i,
    {
        let item = &req_grp[i];
        let response = verfiy_tx(&item.req, &answers[i]);
        cache.insert(clone_bytes(&item.req.tx_hash), response.clone());
        results.push(VerifyRespInfo { resp: response, info: item.info });
        proof {
            assert(req_grp@.subrange(0, i as int + 1).drop_last() =~= req_grp@.subrange(
                0,
                i as int,
            ));
            assert(answers@.subrange(0, i as int + 1).drop_last() =~= answers@.subrange(
                0,
                i as int,
            ));
            assert(req_grp@.subrange(0, i as int + 1).last() == req_grp@[i as int]);
            assert(answers@.subrange(0, i as int + 1).last() == answers@[i as int]);
        }
        i = i + 1;
    }
    proof {
        assert(req_grp@.subrange(0, req_grp@.len() as int) =~= req_grp@);
        assert(answers@.subrange(0, answers@.len() as int) =~= answers@);
    }
    results
}

} // verus!
