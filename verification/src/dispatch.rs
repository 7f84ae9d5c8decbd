//! Inbound-message dispatcher.
//!
//! Three decoded message classes drive three behaviors. A block-commit
//! notice purges the settled hashes from the dedup cache, always refreshes
//! the verifier capability's hash index, and forwards to the sizing
//! collaborator exactly when the notice's height strictly advances the
//! watermark. A block-verify request with a non-empty request list replaces
//! the block status wholesale and fans the requests out as block-kind items;
//! an empty one is rejected without touching any state. A new-transaction
//! request records each transaction in the correlation table (overwriting on
//! hash collision) and enqueues a single-kind item per transaction.

use vstd::prelude::*;

use crate::bytemap::ByteKeyedMap;
use crate::status::{fresh_status, BlockVerifyStatus, VerifyResult};
use crate::types::{
    clone_bytes, CorrelationEntry, CorrelationEntryView, TxRequest, VerifyRequest, VerifyReqInfo,
    VerifyResponse, VerifyType,
};
use crate::watermark::HeightWatermark;

verus! {

/// Per-block and per-account gas limits carried by a block-commit notice,
/// passed through to the sizing collaborator untouched.
pub struct AccountGasLimit {
    pub common_gas_limit: u64,
    pub specific_gas_limit: Vec<(Vec<u8>, u64)>,
}

/// One decoded inbound message, as the transport layer hands it over.
pub enum InboundMsg {
    /// Block-commit notice: these hashes are settled at this height.
    BlockTxHashes {
        height: u64,
        tx_hashes: Vec<Vec<u8>>,
        block_gas_limit: u64,
        account_gas_limit: AccountGasLimit,
    },
    /// Block-level batch verification request.
    BlockVerifyReq { request_id: u64, reqs: Vec<VerifyRequest> },
    /// Single or batch new-transaction submission; the transport layer pairs
    /// each raw request with the verification request it derived from the
    /// payload (hash included).
    NewTxReq { txs: Vec<(TxRequest, VerifyRequest)> },
}

/// Forwarding order for the transaction-pool sizing collaborator, produced
/// only when the commit notice's height strictly advances the watermark.
pub struct SizingForward {
    pub height: u64,
    pub tx_hashes: Vec<Vec<u8>>,
    pub block_gas_limit: u64,
    pub account_gas_limit: AccountGasLimit,
}

/// Everything one dispatched message asks the owning process to do: refresh
/// the verifier capability's hash index, forward to the sizing collaborator,
/// enqueue pending items on the block and single queues, or report an empty
/// block-verify request as rejected.
pub struct DispatchOutcome {
    pub verifier_update: Option<(u64, Vec<Vec<u8>>)>,
    pub sizing_forward: Option<SizingForward>,
    pub block_items: Vec<VerifyReqInfo>,
    pub single_items: Vec<VerifyReqInfo>,
    pub empty_block_request: Option<u64>,
}

/// The set of key views of a hash list.
pub open spec fn hash_key_set(hs: Seq<Vec<u8>>) -> Set<Seq<u8>> {
    Set::new(|k: Seq<u8>| exists|j: int| 0 <= j < hs.len() && hs[j]@ == k)
}

/// Two hash lists with the same byte values.
pub open spec fn same_hashes(a: Seq<Vec<u8>>, b: Seq<Vec<u8>>) -> bool {
    a.len() == b.len() && forall|i: int| 0 <= i < a.len() ==> a[i]@ == b[i]@
}

/// The correlation table after recording every submitted transaction in
/// order, keyed by the derived hash; a later submission under the same hash
/// overwrites an earlier one.
pub open spec fn correlation_after(
    m: Map<Seq<u8>, CorrelationEntryView>,
    txs: Seq<(TxRequest, VerifyRequest)>,
    sub_module: u32,
) -> Map<Seq<u8>, CorrelationEntryView>
    decreases txs.len(),
{
    if txs.len() == 0 {
        m
    } else {
        correlation_after(m, txs.drop_last(), sub_module).insert(
            txs.last().1.tx_hash@,
            CorrelationEntryView { sub_module: sub_module, req: txs.last().0@ },
        )
    }
}

/// Copy a hash list; the copy holds the same byte values.
fn clone_hash_list(v: &Vec<Vec<u8>>) -> (r: Vec<Vec<u8>>)
    ensures
        same_hashes(r@, v@),
{
    let mut r: Vec<Vec<u8>> = Vec::new();
    let mut i: usize = 0;
    while i < v.len()
        invariant
            i <= v.len(),
            r@.len() == i,
            forall|j: int| 0 <= j < i ==> r@[j]@ == v@[j]@,
        decreases v.len() - i,
    {
        r.push(clone_bytes(&v[i]));
        i = i + 1;
    }
    r
}

/// Route one decoded inbound message into the pipeline's state.
///
/// `sub_module` and `origin` identify the sender, as decoded from the
/// message envelope by the transport layer; `now` is the submission
/// timestamp attached to enqueued items.
pub fn handle_remote_msg(
    msg: InboundMsg,
    sub_module: u32,
    origin: u32,
    now: u64,
    cache: &mut ByteKeyedMap<VerifyResponse>,
    watermark: &mut HeightWatermark,
    block_verify_status: &mut BlockVerifyStatus,
    correlation: &mut ByteKeyedMap<CorrelationEntry>,
) -> (out: DispatchOutcome)
    requires
        old(cache).wf(),
        old(correlation).wf(),
    ensures
        final(cache).wf(),
        final(correlation).wf(),
        (msg matches InboundMsg::BlockTxHashes { height, tx_hashes, block_gas_limit, account_gas_limit }
            ==> {
            let advanced = height > old(watermark)@;
            &&& final(cache)@ == old(cache)@.remove_keys(hash_key_set(tx_hashes@))
            &&& final(watermark)@ == (if advanced {
                height
            } else {
                old(watermark)@
            })
            &&& *final(block_verify_status) == *old(block_verify_status)
            &&& final(correlation)@ == old(correlation)@
            &&& (out.verifier_update matches Some(vu) && vu.0 == height && same_hashes(
                vu.1@,
                tx_hashes@,
            ))
            &&& (advanced ==> (out.sizing_forward matches Some(sf) && sf.height == height
                && same_hashes(sf.tx_hashes@, tx_hashes@) && sf.block_gas_limit == block_gas_limit
                && sf.account_gas_limit == account_gas_limit))
            &&& (!advanced ==> out.sizing_forward is None)
            &&& out.block_items@.len() == 0
            &&& out.single_items@.len() == 0
            &&& out.empty_block_request is None
        }),
        (msg matches InboundMsg::BlockVerifyReq { request_id, reqs } ==> {
            &&& final(cache)@ == old(cache)@
            &&& final(watermark)@ == old(watermark)@
            &&& final(correlation)@ == old(correlation)@
            &&& out.verifier_update is None
            &&& out.sizing_forward is None
            &&& out.single_items@.len() == 0
            &&& (reqs@.len() == 0 ==> *final(block_verify_status) == *old(block_verify_status)
                && out.block_items@.len() == 0 && out.empty_block_request == Some(request_id))
            &&& (reqs@.len() > 0 ==> final(block_verify_status)@ == fresh_status(
                request_id,
                reqs@.len() as int,
            ) && out.empty_block_request is None && out.block_items@.len() == reqs@.len() && (
            forall|i: int|
                #![trigger out.block_items@[i]]
                0 <= i < reqs@.len() ==> out.block_items@[i].req@ == reqs@[i]@
                    && out.block_items@[i].info == (
                    VerifyType::BlockVerify,
                    request_id,
                    sub_module,
                    now,
                    origin,
                )))
        }),
        (msg matches InboundMsg::NewTxReq { txs } ==> {
            &&& final(cache)@ == old(cache)@
            &&& final(watermark)@ == old(watermark)@
            &&& *final(block_verify_status) == *old(block_verify_status)
            &&& final(correlation)@ == correlation_after(old(correlation)@, txs@, sub_module)
            &&& out.verifier_update is None
            &&& out.sizing_forward is None
            &&& out.block_items@.len() == 0
            &&& out.empty_block_request is None
            &&& out.single_items@.len() == txs@.len()
            &&& (forall|i: int|
                #![trigger out.single_items@[i]]
                0 <= i < txs@.len() ==> out.single_items@[i].req@ == txs@[i].1@
                    && out.single_items@[i].info == (
                    VerifyType::SingleVerify,
                    0u64,
                    sub_module,
                    now,
                    origin,
                ))
        }),
{
    match msg {
        InboundMsg::BlockTxHashes { height, tx_hashes, block_gas_limit, account_gas_limit } => {
            let mut i: usize = 0;
            while i < tx_hashes.len()
                invariant
                    i <= tx_hashes@.len(),
                    cache.wf(),
                    cache@ == old(cache)@.remove_keys(
                        hash_key_set(tx_hashes@.subrange(0, i as int)),
                    ),
                decreases tx_hashes@.len() - i,
            {
                cache.remove(&tx_hashes[i]);
                proof {
                    let pre = tx_hashes@.subrange(0, i as int);
                    let cur = tx_hashes@.subrange(0, i as int + 1);
                    assert forall|k: Seq<u8>| hash_key_set(cur).contains(k) implies hash_key_set(
                        pre,
                    ).insert(tx_hashes@[i as int]@).contains(k) by {
                        let j = choose|j: int| 0 <= j < cur.len() && cur[j]@ == k;
                        if j < i as int {
                            assert(pre[j]@ == k);
                        }
                    }
                    assert forall|k: Seq<u8>| hash_key_set(pre).insert(
                        tx_hashes@[i as int]@,
                    ).contains(k) implies hash_key_set(cur).contains(k) by {
                        if hash_key_set(pre).contains(k) {
                            let j = choose|j: int| 0 <= j < pre.len() && pre[j]@ == k;
                            assert(cur[j]@ == k);
                        } else {
                            assert(cur[i as int]@ == k);
                        }
                    }
                    assert(hash_key_set(cur) =~= hash_key_set(pre).insert(tx_hashes@[i as int]@));
                    assert(old(cache)@.remove_keys(hash_key_set(pre)).remove(
                        tx_hashes@[i as int]@,
                    ) =~= old(cache)@.remove_keys(hash_key_set(cur)));
                }
                i = i + 1;
            }
            proof {
                assert(tx_hashes@.subrange(0, tx_hashes@.len() as int) =~= tx_hashes@);
            }
            let advanced = watermark.try_advance(height);
            let sizing_forward = if advanced {
                Some(
                    SizingForward {
                        height,
                        tx_hashes: clone_hash_list(&tx_hashes),
                        block_gas_limit,
                        account_gas_limit,
                    },
                )
            } else {
                None
            };
            DispatchOutcome {
                verifier_update: Some((height, tx_hashes)),
                sizing_forward,
                block_items: Vec::new(),
                single_items: Vec::new(),
                empty_block_request: None,
            }
        },
        InboundMsg::BlockVerifyReq { request_id, reqs } => {
            if reqs.len() > 0 {
                *block_verify_status = BlockVerifyStatus {
                    request_id,
                    block_verify_result: VerifyResult::VerifyOngoing,
                    verify_success_cnt_required: reqs.len(),
                    verify_success_cnt_capture: 0,
                    cache_hit: 0,
                };
                let mut block_items: Vec<VerifyReqInfo> = Vec::new();
                let mut i: usize = 0;
                while i < reqs.len()
                    invariant
                        i <= reqs@.len(),
                        block_items@.len() == i,
                        forall|j: int|
                            #![trigger block_items@[j]]
                            0 <= j < i ==> block_items@[j].req@ == reqs@[j]@
                                && block_items@[j].info == (
                                VerifyType::BlockVerify,
                                request_id,
                                sub_module,
                                now,
                                origin,
                            ),
                    decreases reqs@.len() - i,
                {
                    block_items.push(
                        VerifyReqInfo {
                            req: reqs[i].clone(),
                            info: (VerifyType::BlockVerify, request_id, sub_module, now, origin),
                        },
                    );
                    i = i + 1;
                }
                DispatchOutcome {
                    verifier_update: None,
                    sizing_forward: None,
                    block_items,
                    single_items: Vec::new(),
                    empty_block_request: None,
                }
            } else {
                DispatchOutcome {
                    verifier_update: None,
                    sizing_forward: None,
                    block_items: Vec::new(),
                    single_items: Vec::new(),
                    empty_block_request: Some(request_id),
                }
            }
        },
        InboundMsg::NewTxReq { txs } => {
            let mut single_items: Vec<VerifyReqInfo> = Vec::new();
            let mut i: usize = 0;
            while i < txs.len()
                invariant
                    i <= txs@.len(),
                    correlation.wf(),
                    correlation@ == correlation_after(
                        old(correlation)@,
                        txs@.subrange(0, i as int),
                        sub_module,
                    ),
                    single_items@.len() == i,
                    forall|j: int|
                        #![trigger single_items@[j]]
                        0 <= j < i ==> single_items@[j].req@ == txs@[j].1@
                            && single_items@[j].info == (
                            VerifyType::SingleVerify,
                            0u64,
                            sub_module,
                            now,
                            origin,
                        ),
                decreases txs@.len() - i,
            {
                let hash = clone_bytes(&txs[i].1.tx_hash);
                let entry = CorrelationEntry { sub_module, req: txs[i].0.clone() };
                correlation.insert(hash, entry);
                single_items.push(
                    VerifyReqInfo {
                        req: txs[i].1.clone(),
                        info: (VerifyType::SingleVerify, 0u64, sub_module, now, origin),
                    },
                );
                proof {
                    assert(txs@.subrange(0, i as int + 1).drop_last() =~= txs@.subrange(
                        0,
                        i as int,
                    ));
                    assert(txs@.subrange(0, i as int + 1).last() == txs@[i as int]);
                }
                i = i + 1;
            }
            proof {
                assert(txs@.subrange(0, txs@.len() as int) =~= txs@);
            }
            DispatchOutcome {
                verifier_update: None,
                sizing_forward: None,
                block_items: Vec::new(),
                single_items,
                empty_block_request: None,
            }
        },
    }
}

} // verus!
