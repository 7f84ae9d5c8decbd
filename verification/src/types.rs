//! Core data model of the verification pipeline.
//!
//! Hashes, signers and raw payloads are byte vectors; heights and timestamps
//! are integers. The transport layer decodes wire messages into these plain
//! values before they reach the library, and encodes the library's outputs on
//! the way back out.

use vstd::prelude::*;

verus! {

/// Outcome of verifying one transaction.
#[derive(Clone, Copy, Debug, PartialEq, Eq, Structural)]
pub enum Outcome {
    /// Signature valid and, where an expected signer was given, matching.
    Accepted,
    /// The hash is already known to the verifier capability.
    Dup,
    /// The verifier capability is not yet initialized enough to judge
    /// duplication.
    NotReady,
    /// Signature invalid, or the recovered signer differs from the expected
    /// one.
    BadSig,
    /// The request's validity window has already elapsed.
    InvalidUntilBlock,
}

/// Whether a pending item belongs to a single-transaction submission or to a
/// block-level batch verification.
#[derive(Clone, Copy, Debug, PartialEq, Eq, Structural)]
pub enum VerifyType {
    SingleVerify,
    BlockVerify,
}

/// One transaction-verification request: the transaction's hash, the expected
/// signer (empty when the submitter claims none), the block height up to which
/// the transaction is valid, and the raw signed-transaction payload.
pub struct VerifyRequest {
    pub tx_hash: Vec<u8>,
    pub signer: Vec<u8>,
    pub valid_until_block: u64,
    pub payload: Vec<u8>,
}

/// Mathematical value of a [`VerifyRequest`].
pub ghost struct VerifyRequestView {
    pub tx_hash: Seq<u8>,
    pub signer: Seq<u8>,
    pub valid_until_block: u64,
    pub payload: Seq<u8>,
}

impl View for VerifyRequest {
    type V = VerifyRequestView;

    open spec fn view(&self) -> VerifyRequestView {
        VerifyRequestView {
            tx_hash: self.tx_hash@,
            signer: self.signer@,
            valid_until_block: self.valid_until_block,
            payload: self.payload@,
        }
    }
}

impl Clone for VerifyRequest {
    fn clone(&self) -> (r: Self)
        ensures
            r@ == self@,
    {
        VerifyRequest {
            tx_hash: clone_bytes(&self.tx_hash),
            signer: clone_bytes(&self.signer),
            valid_until_block: self.valid_until_block,
            payload: clone_bytes(&self.payload),
        }
    }
}

/// One verification response: the transaction's hash, the outcome, and the
/// recovered signer (non-empty only on [`Outcome::Accepted`]).
pub struct VerifyResponse {
    pub tx_hash: Vec<u8>,
    pub ret: Outcome,
    pub signer: Vec<u8>,
}

/// Mathematical value of a [`VerifyResponse`].
pub ghost struct VerifyResponseView {
    pub tx_hash: Seq<u8>,
    pub ret: Outcome,
    pub signer: Seq<u8>,
}

impl View for VerifyResponse {
    type V = VerifyResponseView;

    open spec fn view(&self) -> VerifyResponseView {
        VerifyResponseView { tx_hash: self.tx_hash@, ret: self.ret, signer: self.signer@ }
    }
}

impl Clone for VerifyResponse {
    fn clone(&self) -> (r: Self)
        ensures
            r@ == self@,
    {
        VerifyResponse {
            tx_hash: clone_bytes(&self.tx_hash),
            ret: self.ret,
            signer: clone_bytes(&self.signer),
        }
    }
}

/// A pending verification item: the request plus its routing metadata
/// `(kind, block-request-id, submitting submodule, submission timestamp,
/// origin tag)`. The block-request-id is zero and unused for single-verify
/// items.
pub struct VerifyReqInfo {
    pub req: VerifyRequest,
    pub info: (VerifyType, u64, u32, u64, u32),
}

/// A completed verification result: the response plus the routing metadata of
/// the item it answers, in the same order as [`VerifyReqInfo::info`].
pub struct VerifyRespInfo {
    pub resp: VerifyResponse,
    pub info: (VerifyType, u64, u32, u64, u32),
}

/// One submitted single-transaction request as the transport layer hands it
/// over: the submitter's correlation id and the raw unverified-transaction
/// payload.
pub struct TxRequest {
    pub request_id: Vec<u8>,
    pub un_tx: Vec<u8>,
}

/// Mathematical value of a [`TxRequest`].
pub ghost struct TxRequestView {
    pub request_id: Seq<u8>,
    pub un_tx: Seq<u8>,
}

impl View for TxRequest {
    type V = TxRequestView;

    open spec fn view(&self) -> TxRequestView {
        TxRequestView { request_id: self.request_id@, un_tx: self.un_tx@ }
    }
}

impl Clone for TxRequest {
    fn clone(&self) -> (r: Self)
        ensures
            r@ == self@,
    {
        TxRequest { request_id: clone_bytes(&self.request_id), un_tx: clone_bytes(&self.un_tx) }
    }
}

/// Correlation-table entry: the submitting submodule and the original
/// request, kept until the matching verification result arrives.
pub struct CorrelationEntry {
    pub sub_module: u32,
    pub req: TxRequest,
}

/// Mathematical value of a [`CorrelationEntry`].
pub ghost struct CorrelationEntryView {
    pub sub_module: u32,
    pub req: TxRequestView,
}

impl View for CorrelationEntry {
    type V = CorrelationEntryView;

    open spec fn view(&self) -> CorrelationEntryView {
        CorrelationEntryView { sub_module: self.sub_module, req: self.req@ }
    }
}

impl Clone for CorrelationEntry {
    fn clone(&self) -> (r: Self)
        ensures
            r@ == self@,
    {
        CorrelationEntry { sub_module: self.sub_module, req: self.req.clone() }
    }
}

/// The signed-transaction artifact forwarded to the transaction pool after a
/// single-verify `Accepted`: the original payload, the recovered signer and
/// the transaction hash.
pub struct SignedTransaction {
    pub transaction_with_sig: Vec<u8>,
    pub signer: Vec<u8>,
    pub tx_hash: Vec<u8>,
}

/// Mathematical value of a [`SignedTransaction`].
pub ghost struct SignedTransactionView {
    pub transaction_with_sig: Seq<u8>,
    pub signer: Seq<u8>,
    pub tx_hash: Seq<u8>,
}

impl View for SignedTransaction {
    type V = SignedTransactionView;

    open spec fn view(&self) -> SignedTransactionView {
        SignedTransactionView {
            transaction_with_sig: self.transaction_with_sig@,
            signer: self.signer@,
            tx_hash: self.tx_hash@,
        }
    }
}

/// Status record sent along with outbound single-verify notifications: the
/// transaction's hash and the textual outcome.
pub struct TxResponse {
    pub hash: Vec<u8>,
    pub status: String,
}

/// Mathematical value of a [`TxResponse`].
pub ghost struct TxResponseView {
    pub hash: Seq<u8>,
    pub status: Seq<char>,
}

impl View for TxResponse {
    type V = TxResponseView;

    open spec fn view(&self) -> TxResponseView {
        TxResponseView { hash: self.hash@, status: self.status@ }
    }
}

/// Byte-vector equality, decided element by element.
pub fn bytes_eq(a: &Vec<u8>, b: &Vec<u8>) -> (r: bool)
    ensures
        r == (a@ == b@),
{
    if a.len() != b.len() {
        assert(a@ != b@);
        return false;
    }
    let mut i: usize = 0;
    while i < a.len()
        invariant
            i <= a.len(),
            a@.len() == b@.len(),
            forall|j: int| 0 <= j < i ==> a@[j] == b@[j],
        decreases a.len() - i,
    {
        if a[i] != b[i] {
            assert(a@ != b@);
            return false;
        }
        i = i + 1;
    }
    proof {
        assert(a@ =~= b@);
    }
    true
}

/// Copy a byte vector; the copy has the same mathematical value.
pub fn clone_bytes(v: &Vec<u8>) -> (r: Vec<u8>)
    ensures
        r@ == v@,
{
    let mut r: Vec<u8> = Vec::new();
    let mut i: usize = 0;
    while i < v.len()
        invariant
            i <= v.len(),
            r@ == v@.subrange(0, i as int),
        decreases v.len() - i,
    {
        r.push(v[i]);
        proof {
            assert(r@ =~= v@.subrange(0, i as int + 1));
        }
        i = i + 1;
    }
    proof {
        assert(v@.subrange(0, v@.len() as int) =~= v@);
    }
    r
}

} // verus!
