//! Result aggregator: the single consumer of the shared result stream.
//!
//! Each call settles exactly one completed result. A single-verify result is
//! reconciled against the pending-correlation table: a matching entry is
//! consumed exactly once and either the signed-transaction artifact goes to
//! the transaction pool (`Accepted`) or, for the RPC-facing submodule, a
//! structured failure response goes back on the RPC channel; a result with no
//! matching entry is dropped silently. A block-verify result drives the
//! block status through [`block_step`]: first failure wins and publishes
//! once; full success publishes once; stale ids change nothing; a terminal
//! status is final, so nothing is ever counted or published after it.

use vstd::prelude::*;
use vstd::string::*;

use crate::bytemap::ByteKeyedMap;
use crate::status::{block_step, status_wf, BlockVerifyStatus, VerifyResult};
use crate::types::{
    clone_bytes, CorrelationEntry, Outcome, SignedTransaction, TxResponse, VerifyRespInfo,
    VerifyType,
};

verus! {

/// What the aggregator asks the owning process to emit for one result.
pub enum AggregateOutput {
    /// Nothing to emit.
    NoAction,
    /// Forward the accepted transaction to the transaction-pool collaborator,
    /// with the submitter's id, its correlation id, a status record and the
    /// origin tag for routing.
    ForwardToPool {
        sub_module_id: u32,
        request_id: Vec<u8>,
        tx_response: TxResponse,
        signed_tx: SignedTransaction,
        origin: u32,
    },
    /// Publish a structured failure response on the RPC-response channel; the
    /// transport layer attaches its fixed auth-error code.
    RpcError { request_id: Vec<u8>, tx_response: TxResponse },
    /// Publish the terminal block-verify response on the topic keyed by the
    /// requesting submodule.
    PublishBlockResp { block_request_id: u64, ret: Outcome, sub_module: u32 },
}

/// Textual form of an outcome, as carried by outbound status records.
pub open spec fn outcome_text_spec(oc: Outcome) -> Seq<char> {
    match oc {
        Outcome::Accepted => "Ok"@,
        Outcome::Dup => "Dup"@,
        Outcome::NotReady => "NotReady"@,
        Outcome::BadSig => "BadSig"@,
        Outcome::InvalidUntilBlock => "InvalidUntilBlock"@,
    }
}

/// Render an outcome as its textual form.
pub fn outcome_text(oc: Outcome) -> (r: String)
    ensures
        r@ == outcome_text_spec(oc),
{
    match oc {
        Outcome::Accepted => String::from_str("Ok"),
        Outcome::Dup => String::from_str("Dup"),
        Outcome::NotReady => String::from_str("NotReady"),
        Outcome::BadSig => String::from_str("BadSig"),
        Outcome::InvalidUntilBlock => String::from_str("InvalidUntilBlock"),
    }
}

/// Settle one completed verification result.
///
/// `rpc_submodule` is the routing id of the JSON-RPC-facing submodule, owned
/// by the external messaging layer: single-verify rejections are answered
/// only toward it, submissions from any other submodule are fire-and-forget.
pub fn handle_verificaton_result(
    result: VerifyRespInfo,
    rpc_submodule: u32,
    block_verify_status: &mut BlockVerifyStatus,
    correlation: &mut ByteKeyedMap<CorrelationEntry>,
) -> (out: AggregateOutput)
    requires
        old(correlation).wf(),
        (result.info.0 == VerifyType::BlockVerify && result.info.1 == old(
            block_verify_status,
        ).request_id && old(block_verify_status).block_verify_result
            == VerifyResult::VerifyOngoing && result.resp.ret == Outcome::Accepted) ==> old(
            block_verify_status,
        ).verify_success_cnt_capture < usize::MAX,
    ensures
        final(correlation).wf(),
        status_wf(old(block_verify_status)@) ==> status_wf(final(block_verify_status)@),
        result.info.0 == VerifyType::SingleVerify ==> ({
            let hash = result.resp.tx_hash@;
            let table = old(correlation)@;
            &&& *final(block_verify_status) == *old(block_verify_status)
            &&& final(correlation)@ == table.remove(hash)
            &&& (!table.contains_key(hash) ==> out == AggregateOutput::NoAction)
            &&& (table.contains_key(hash) && result.resp.ret == Outcome::Accepted ==> (
            out matches AggregateOutput::ForwardToPool {
                sub_module_id,
                request_id,
                tx_response,
                signed_tx,
                origin,
            } && sub_module_id == table[hash].sub_module && request_id@
                == table[hash].req.request_id && tx_response.hash@ == hash && tx_response.status@
                == outcome_text_spec(Outcome::Accepted) && signed_tx.transaction_with_sig@
                == table[hash].req.un_tx && signed_tx.signer@ == result.resp.signer@
                && signed_tx.tx_hash@ == hash && origin == result.info.4))
            &&& (table.contains_key(hash) && result.resp.ret != Outcome::Accepted
                && table[hash].sub_module == rpc_submodule ==> (
            out matches AggregateOutput::RpcError { request_id, tx_response } && request_id@
                == table[hash].req.request_id && tx_response.hash@ == hash && tx_response.status@
                == outcome_text_spec(result.resp.ret)))
            &&& (table.contains_key(hash) && result.resp.ret != Outcome::Accepted
                && table[hash].sub_module != rpc_submodule ==> out == AggregateOutput::NoAction)
        }),
        result.info.0 == VerifyType::BlockVerify ==> ({
            let stepped = block_step(old(block_verify_status)@, result.info.1, result.resp.ret);
            &&& final(correlation)@ == old(correlation)@
            &&& final(block_verify_status)@ == stepped.0
            &&& (stepped.1 is None ==> out == AggregateOutput::NoAction)
            &&& (stepped.1 matches Some(oc) ==> out == (AggregateOutput::PublishBlockResp {
                block_request_id: result.info.1,
                ret: oc,
                sub_module: result.info.2,
            }))
        }),
{
    match result.info.0 {
        VerifyType::SingleVerify => {
            let removed = correlation.remove(&result.resp.tx_hash);
            match removed {
                Option::None => AggregateOutput::NoAction,
                Option::Some(entry) => {
                    match result.resp.ret {
                        Outcome::Accepted => {
                            let signed_tx = SignedTransaction {
                                transaction_with_sig: entry.req.un_tx,
                                signer: clone_bytes(&result.resp.signer),
                                tx_hash: clone_bytes(&result.resp.tx_hash),
                            };
                            let tx_response = TxResponse {
                                hash: result.resp.tx_hash,
                                status: outcome_text(Outcome::Accepted),
                            };
                            AggregateOutput::ForwardToPool {
                                sub_module_id: entry.sub_module,
                                request_id: entry.req.request_id,
                                tx_response,
                                signed_tx,
                                origin: result.info.4,
                            }
                        },
                        _ => {
                            if entry.sub_module == rpc_submodule {
                                let tx_response = TxResponse {
                                    hash: result.resp.tx_hash,
                                    status: outcome_text(result.resp.ret),
                                };
                                AggregateOutput::RpcError {
                                    request_id: entry.req.request_id,
                                    tx_response,
                                }
                            } else {
                                AggregateOutput::NoAction
                            }
                        },
                    }
                },
            }
        },
        VerifyType::BlockVerify => {
            let request_id = result.info.1;
            let ret = result.resp.ret;
            if request_id != block_verify_status.request_id
                || block_verify_status.block_verify_result != VerifyResult::VerifyOngoing {
                AggregateOutput::NoAction
            } else if ret != Outcome::Accepted {
                block_verify_status.block_verify_result = VerifyResult::VerifyFailed;
                AggregateOutput::PublishBlockResp {
                    block_request_id: request_id,
                    ret,
                    sub_module: result.info.2,
                }
            } else {
                block_verify_status.verify_success_cnt_capture =
                    block_verify_status.verify_success_cnt_capture + 1;
                if block_verify_status.verify_success_cnt_capture
                    == block_verify_status.verify_success_cnt_required {
                    block_verify_status.block_verify_result = VerifyResult::VerifySucceeded;
                    AggregateOutput::PublishBlockResp {
                        block_request_id: request_id,
                        ret,
                        sub_module: result.info.2,
                    }
                } else {
                    AggregateOutput::NoAction
                }
            }
        },
    }
}

} // verus!
