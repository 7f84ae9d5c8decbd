//! Pre-verification gate.
//!
//! Before an item reaches the workers it passes two cheap filters: the
//! validity-window check (answered by the external verifier capability and
//! handed in as a plain boolean) and the dedup-cache lookup. A filtered item
//! short-circuits with a finished result for the shared result stream; an
//! unfiltered one proceeds to the workers.

use vstd::prelude::*;

use crate::bytemap::ByteKeyedMap;
use crate::types::{
    clone_bytes, Outcome, VerifyReqInfo, VerifyRespInfo, VerifyResponse, VerifyResponseView,
};

verus! {

/// The response a request outside its validity window short-circuits with.
pub open spec fn invalid_until_block_response(tx_hash: Seq<u8>) -> VerifyResponseView {
    VerifyResponseView { tx_hash: tx_hash, ret: Outcome::InvalidUntilBlock, signer: Seq::empty() }
}

/// Filter one pending item before the expensive verification.
///
/// `height_valid` is the external verifier capability's answer to whether the
/// request's validity-window height is still acceptable. When it is not, the
/// item short-circuits with `InvalidUntilBlock`; else a cached response for
/// the hash comes back verbatim, so a resubmitted hash never costs a second
/// cryptographic check; else `None` sends the item on to the workers. A
/// short-circuit result carries the item's own metadata and joins the same
/// result stream as worker results.
pub fn check_verify_request_preprocess(
    req_info: &VerifyReqInfo,
    height_valid: bool,
    cache: &ByteKeyedMap<VerifyResponse>,
) -> (r: Option<VerifyRespInfo>)
    requires
        cache.wf(),
    ensures
        !height_valid ==> (r matches Some(ri) && ri.resp@ == invalid_until_block_response(
            req_info.req.tx_hash@,
        ) && ri.info == req_info.info),
        height_valid && cache@.contains_key(req_info.req.tx_hash@) ==> (r matches Some(ri)
            && ri.resp@ == cache@[req_info.req.tx_hash@] && ri.info == req_info.info),
        height_valid && !cache@.contains_key(req_info.req.tx_hash@) ==> r is None,
{
    if !height_valid {
        let response = VerifyResponse {
            tx_hash: clone_bytes(&req_info.req.tx_hash),
            ret: Outcome::InvalidUntilBlock,
            signer: Vec::new(),
        };
        Some(VerifyRespInfo { resp: response, info: req_info.info })
    } else {
        match cache.get(&req_info.req.tx_hash) {
            Some(resp) => Some(VerifyRespInfo { resp: resp.clone(), info: req_info.info }),
            None => None,
        }
    }
}

} // verus!
