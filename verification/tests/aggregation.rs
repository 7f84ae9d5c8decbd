use auth_core::aggregate::{handle_verificaton_result, outcome_text, AggregateOutput};
use auth_core::bytemap::ByteKeyedMap;
use auth_core::status::{BlockVerifyStatus, VerifyResult};
use auth_core::types::{CorrelationEntry, Outcome, TxRequest, VerifyRespInfo, VerifyResponse, VerifyType};

const RPC: u32 = 1;
const OTHER: u32 = 5;

fn response(hash: &[u8], ret: Outcome, signer: &[u8]) -> VerifyResponse {
    VerifyResponse { tx_hash: hash.to_vec(), ret, signer: signer.to_vec() }
}

fn block_result(id: u64, hash: &[u8], ret: Outcome) -> VerifyRespInfo {
    VerifyRespInfo {
        resp: response(hash, ret, b""),
        info: (VerifyType::BlockVerify, id, OTHER, 11, 7),
    }
}

fn single_result(hash: &[u8], ret: Outcome, signer: &[u8]) -> VerifyRespInfo {
    VerifyRespInfo {
        resp: response(hash, ret, signer),
        info: (VerifyType::SingleVerify, 0, RPC, 11, 7),
    }
}

fn ongoing(id: u64, required: usize) -> BlockVerifyStatus {
    BlockVerifyStatus {
        request_id: id,
        block_verify_result: VerifyResult::VerifyOngoing,
        verify_success_cnt_required: required,
        verify_success_cnt_capture: 0,
        cache_hit: 0,
    }
}

fn entry(sub: u32, rid: &[u8], raw: &[u8]) -> CorrelationEntry {
    CorrelationEntry {
        sub_module: sub,
        req: TxRequest { request_id: rid.to_vec(), un_tx: raw.to_vec() },
    }
}

fn is_publish(out: &AggregateOutput) -> Option<(u64, Outcome)> {
    match out {
        AggregateOutput::PublishBlockResp { block_request_id, ret, .. } => {
            Some((*block_request_id, *ret))
        }
        _ => None,
    }
}

#[test]
fn outcome_text_matches_taxonomy() {
    assert_eq!(outcome_text(Outcome::Accepted), "Ok");
    assert_eq!(outcome_text(Outcome::Dup), "Dup");
    assert_eq!(outcome_text(Outcome::NotReady), "NotReady");
    assert_eq!(outcome_text(Outcome::BadSig), "BadSig");
    assert_eq!(outcome_text(Outcome::InvalidUntilBlock), "InvalidUntilBlock");
}

#[test]
fn block_success_publishes_exactly_once_at_required_count() {
    let mut bvs = ongoing(9, 3);
    let mut corr: ByteKeyedMap<CorrelationEntry> = ByteKeyedMap::new();
    let mut publishes = 0;
    for hash in [b"t-1".as_slice(), b"t-2".as_slice(), b"t-3".as_slice()] {
        let out = handle_verificaton_result(
            block_result(9, hash, Outcome::Accepted),
            RPC,
            &mut bvs,
            &mut corr,
        );
        if let Some((id, ret)) = is_publish(&out) {
            publishes += 1;
            assert_eq!(id, 9);
            assert_eq!(ret, Outcome::Accepted);
        }
        assert!(bvs.verify_success_cnt_capture <= bvs.verify_success_cnt_required);
    }
    assert_eq!(publishes, 1);
    assert_eq!(bvs.block_verify_result, VerifyResult::VerifySucceeded);
    assert_eq!(bvs.verify_success_cnt_capture, 3);
}

#[test]
fn first_failure_wins_and_trailing_ok_is_ignored() {
    // block_request_id=7, required=3; results Ok, BadSig, Ok
    let mut bvs = ongoing(7, 3);
    let mut corr: ByteKeyedMap<CorrelationEntry> = ByteKeyedMap::new();
    let outs = [
        handle_verificaton_result(block_result(7, b"a", Outcome::Accepted), RPC, &mut bvs, &mut corr),
        handle_verificaton_result(block_result(7, b"b", Outcome::BadSig), RPC, &mut bvs, &mut corr),
        handle_verificaton_result(block_result(7, b"c", Outcome::Accepted), RPC, &mut bvs, &mut corr),
    ];
    let published: Vec<(u64, Outcome)> = outs.iter().filter_map(is_publish).collect();
    assert_eq!(published, vec![(7, Outcome::BadSig)]);
    assert_eq!(bvs.block_verify_result, VerifyResult::VerifyFailed);
}

#[test]
fn failure_first_interleaving_also_publishes_once() {
    // same request, the failure arriving first
    let mut bvs = ongoing(7, 3);
    let mut corr: ByteKeyedMap<CorrelationEntry> = ByteKeyedMap::new();
    let outs = [
        handle_verificaton_result(block_result(7, b"b", Outcome::BadSig), RPC, &mut bvs, &mut corr),
        handle_verificaton_result(block_result(7, b"a", Outcome::Accepted), RPC, &mut bvs, &mut corr),
        handle_verificaton_result(block_result(7, b"c", Outcome::Accepted), RPC, &mut bvs, &mut corr),
    ];
    let published: Vec<(u64, Outcome)> = outs.iter().filter_map(is_publish).collect();
    assert_eq!(published, vec![(7, Outcome::BadSig)]);
    assert_eq!(bvs.block_verify_result, VerifyResult::VerifyFailed);
    assert!(bvs.verify_success_cnt_capture <= bvs.verify_success_cnt_required);
}

#[test]
fn second_failure_of_same_request_is_not_published_again() {
    let mut bvs = ongoing(4, 2);
    let mut corr: ByteKeyedMap<CorrelationEntry> = ByteKeyedMap::new();
    let first =
        handle_verificaton_result(block_result(4, b"x", Outcome::BadSig), RPC, &mut bvs, &mut corr);
    assert!(is_publish(&first).is_some());
    let second =
        handle_verificaton_result(block_result(4, b"y", Outcome::Dup), RPC, &mut bvs, &mut corr);
    assert!(matches!(second, AggregateOutput::NoAction));
    assert_eq!(bvs.block_verify_result, VerifyResult::VerifyFailed);
}

#[test]
fn stale_block_result_of_superseded_request_is_discarded() {
    let mut bvs = ongoing(8, 2);
    let mut corr: ByteKeyedMap<CorrelationEntry> = ByteKeyedMap::new();
    // a result still carrying the superseded id 3
    let out =
        handle_verificaton_result(block_result(3, b"z", Outcome::BadSig), RPC, &mut bvs, &mut corr);
    assert!(matches!(out, AggregateOutput::NoAction));
    assert_eq!(bvs.block_verify_result, VerifyResult::VerifyOngoing);
    assert_eq!(bvs.verify_success_cnt_capture, 0);
    let out2 =
        handle_verificaton_result(block_result(3, b"z", Outcome::Accepted), RPC, &mut bvs, &mut corr);
    assert!(matches!(out2, AggregateOutput::NoAction));
    assert_eq!(bvs.verify_success_cnt_capture, 0);
}

#[test]
fn single_ok_with_entry_forwards_artifact_exactly_once() {
    let mut bvs = BlockVerifyStatus::initial();
    let mut corr: ByteKeyedMap<CorrelationEntry> = ByteKeyedMap::new();
    corr.insert(b"s-hash".to_vec(), entry(OTHER, b"rid-9", b"raw-tx-bytes"));

    let out = handle_verificaton_result(
        single_result(b"s-hash", Outcome::Accepted, b"the-signer"),
        RPC,
        &mut bvs,
        &mut corr,
    );
    match out {
        AggregateOutput::ForwardToPool { sub_module_id, request_id, tx_response, signed_tx, origin } => {
            assert_eq!(sub_module_id, OTHER);
            assert_eq!(request_id, b"rid-9".to_vec());
            assert_eq!(tx_response.hash, b"s-hash".to_vec());
            assert_eq!(tx_response.status, "Ok");
            assert_eq!(signed_tx.transaction_with_sig, b"raw-tx-bytes".to_vec());
            assert_eq!(signed_tx.signer, b"the-signer".to_vec());
            assert_eq!(signed_tx.tx_hash, b"s-hash".to_vec());
            assert_eq!(origin, 7);
        }
        _ => panic!("expected a forwarded artifact"),
    }

    // the same result again: the entry is already consumed, nothing happens
    let again = handle_verificaton_result(
        single_result(b"s-hash", Outcome::Accepted, b"the-signer"),
        RPC,
        &mut bvs,
        &mut corr,
    );
    assert!(matches!(again, AggregateOutput::NoAction));
}

#[test]
fn single_failure_from_rpc_submodule_gets_structured_response() {
    let mut bvs = BlockVerifyStatus::initial();
    let mut corr: ByteKeyedMap<CorrelationEntry> = ByteKeyedMap::new();
    corr.insert(b"f-hash".to_vec(), entry(RPC, b"rid-5", b"raw"));
    let out = handle_verificaton_result(
        single_result(b"f-hash", Outcome::BadSig, b""),
        RPC,
        &mut bvs,
        &mut corr,
    );
    match out {
        AggregateOutput::RpcError { request_id, tx_response } => {
            assert_eq!(request_id, b"rid-5".to_vec());
            assert_eq!(tx_response.hash, b"f-hash".to_vec());
            assert_eq!(tx_response.status, "BadSig");
        }
        _ => panic!("expected an RPC failure response"),
    }
    assert!(corr.get(&b"f-hash".to_vec()).is_none());
}

#[test]
fn single_failure_from_other_submodule_is_fire_and_forget() {
    let mut bvs = BlockVerifyStatus::initial();
    let mut corr: ByteKeyedMap<CorrelationEntry> = ByteKeyedMap::new();
    corr.insert(b"q-hash".to_vec(), entry(OTHER, b"rid-6", b"raw"));
    let out = handle_verificaton_result(
        single_result(b"q-hash", Outcome::InvalidUntilBlock, b""),
        RPC,
        &mut bvs,
        &mut corr,
    );
    assert!(matches!(out, AggregateOutput::NoAction));
    // the entry is still consumed
    assert!(corr.get(&b"q-hash".to_vec()).is_none());
}

#[test]
fn single_result_without_entry_is_dropped_silently() {
    let mut bvs = BlockVerifyStatus::initial();
    let mut corr: ByteKeyedMap<CorrelationEntry> = ByteKeyedMap::new();
    let out = handle_verificaton_result(
        single_result(b"unknown", Outcome::Accepted, b"s"),
        RPC,
        &mut bvs,
        &mut corr,
    );
    assert!(matches!(out, AggregateOutput::NoAction));
}

#[test]
fn late_failure_after_success_changes_nothing() {
    let mut bvs = ongoing(6, 1);
    let mut corr: ByteKeyedMap<CorrelationEntry> = ByteKeyedMap::new();
    let first =
        handle_verificaton_result(block_result(6, b"k", Outcome::Accepted), RPC, &mut bvs, &mut corr);
    assert_eq!(is_publish(&first), Some((6, Outcome::Accepted)));
    assert_eq!(bvs.block_verify_result, VerifyResult::VerifySucceeded);
    // a late matching failure: terminal is final, nothing is published
    let late =
        handle_verificaton_result(block_result(6, b"l", Outcome::BadSig), RPC, &mut bvs, &mut corr);
    assert!(matches!(late, AggregateOutput::NoAction));
    assert_eq!(bvs.block_verify_result, VerifyResult::VerifySucceeded);
}

#[test]
fn late_ok_after_success_keeps_captured_at_required() {
    let mut bvs = ongoing(2, 1);
    let mut corr: ByteKeyedMap<CorrelationEntry> = ByteKeyedMap::new();
    handle_verificaton_result(block_result(2, b"m", Outcome::Accepted), RPC, &mut bvs, &mut corr);
    assert_eq!(bvs.verify_success_cnt_capture, 1);
    let late =
        handle_verificaton_result(block_result(2, b"n", Outcome::Accepted), RPC, &mut bvs, &mut corr);
    assert!(matches!(late, AggregateOutput::NoAction));
    assert_eq!(bvs.verify_success_cnt_capture, 1);
    assert!(bvs.verify_success_cnt_capture <= bvs.verify_success_cnt_required);
}

#[test]
fn duplicate_oks_after_failure_never_publish_success() {
    let mut bvs = ongoing(5, 2);
    let mut corr: ByteKeyedMap<CorrelationEntry> = ByteKeyedMap::new();
    let outs = [
        handle_verificaton_result(block_result(5, b"p", Outcome::BadSig), RPC, &mut bvs, &mut corr),
        handle_verificaton_result(block_result(5, b"q", Outcome::Accepted), RPC, &mut bvs, &mut corr),
        handle_verificaton_result(block_result(5, b"q", Outcome::Accepted), RPC, &mut bvs, &mut corr),
        handle_verificaton_result(block_result(5, b"q", Outcome::Accepted), RPC, &mut bvs, &mut corr),
    ];
    let published: Vec<(u64, Outcome)> = outs.iter().filter_map(is_publish).collect();
    assert_eq!(published, vec![(5, Outcome::BadSig)]);
    assert_eq!(bvs.block_verify_result, VerifyResult::VerifyFailed);
    assert!(bvs.verify_success_cnt_capture <= bvs.verify_success_cnt_required);
}
