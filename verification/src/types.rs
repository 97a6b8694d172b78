//! The values that consensus hands to the bridge, reduced to what the bridge
//! reads from them.

use vstd::prelude::*;

verus! {

/// A position in the ledger. Versions are totally ordered and only grow.
pub type Version = u64;

/// The identity of a block: a 256-bit digest in two halves, carried and never
/// inspected.
#[derive(Clone, Copy, Debug, PartialEq, Eq, Structural)]
pub struct HashValue {
    pub high: u128,
    pub low: u128,
}

/// A transaction as a client signed it, in its serialised form.
#[derive(Debug)]
pub struct SignedTransaction {
    pub raw: Vec<u8>,
}

impl View for SignedTransaction {
    type V = Seq<u8>;

    open spec fn view(&self) -> Seq<u8> {
        self.raw@
    }
}

impl Clone for SignedTransaction {
    fn clone(&self) -> (copy: Self)
        ensures
            copy@ == self@,
    {
        let raw = self.raw.clone();
        assert(raw@ =~= self.raw@);
        SignedTransaction { raw }
    }
}

/// What a transaction is, seen apart from the buffer that holds it.
pub enum TransactionKind {
    /// Submitted by a user; the bytes are the signed transaction.
    User(Seq<u8>),
    /// A write set applied directly, as at genesis.
    WriteSet(Seq<u8>),
}

/// One entry of a batch handed to the execution engine.
#[derive(Debug)]
pub enum Transaction {
    /// A transaction submitted by a user.
    UserTransaction(SignedTransaction),
    /// A write set applied directly, as at genesis. The bridge never builds one.
    WriteSet(Vec<u8>),
}

impl View for Transaction {
    type V = TransactionKind;

    open spec fn view(&self) -> TransactionKind {
        match self {
            Transaction::UserTransaction(signed) => TransactionKind::User(signed@),
            Transaction::WriteSet(bytes) => TransactionKind::WriteSet(bytes@),
        }
    }
}

/// The batch that a payload stands for: each signed transaction, in order, as a
/// user transaction.
pub open spec fn user_transactions(payload: Seq<SignedTransaction>) -> Seq<TransactionKind> {
    Seq::new(payload.len(), |i: int| TransactionKind::User(payload[i]@))
}

/// The kinds of a batch of transactions, in order.
pub open spec fn batch_view(batch: Seq<Transaction>) -> Seq<TransactionKind> {
    Seq::new(batch.len(), |i: int| batch[i]@)
}

/// A proposed block: who it is, whom it extends, and what it carries. A block
/// may carry no payload at all.
#[derive(Debug)]
pub struct Block {
    pub id: HashValue,
    pub parent_id: HashValue,
    pub payload: Option<Vec<SignedTransaction>>,
}

impl Block {
    /// The signed transactions of the block; none where it has no payload.
    pub open spec fn payload_seq(&self) -> Seq<SignedTransaction> {
        match self.payload {
            Some(list) => list@,
            None => Seq::empty(),
        }
    }

    pub fn new(id: HashValue, parent_id: HashValue, payload: Option<Vec<SignedTransaction>>) -> (block: Block)
        ensures
            block.id == id,
            block.parent_id == parent_id,
            block.payload == payload,
    {
        Block { id, parent_id, payload }
    }

    pub fn id(&self) -> (id: HashValue)
        ensures
            id == self.id,
    {
        self.id
    }

    pub fn parent_id(&self) -> (id: HashValue)
        ensures
            id == self.parent_id,
    {
        self.parent_id
    }

    pub fn payload(&self) -> (payload: Option<&Vec<SignedTransaction>>)
        ensures
            payload is Some <==> self.payload is Some,
            payload matches Some(list) ==> self.payload == Some(*list),
    {
        match &self.payload {
            Some(list) => Some(list),
            None => None,
        }
    }
}

/// The ledger state that a quorum attests to. The bridge reads its version.
#[derive(Clone, Copy, Debug, PartialEq, Eq, Structural)]
pub struct LedgerInfo {
    pub version: Version,
}

impl LedgerInfo {
    pub fn new(version: Version) -> (info: LedgerInfo)
        ensures
            info.version == version,
    {
        LedgerInfo { version }
    }

    pub fn version(&self) -> (version: Version)
        ensures
            version == self.version,
    {
        self.version
    }
}

/// A finality proof: a ledger state together with the evidence that a quorum
/// signed it. The evidence is checked before a value of this type is made.
#[derive(Clone, Copy, Debug, PartialEq, Eq, Structural)]
pub struct LedgerInfoWithSignatures {
    pub ledger_info: LedgerInfo,
}

impl LedgerInfoWithSignatures {
    pub fn new(ledger_info: LedgerInfo) -> (proof: LedgerInfoWithSignatures)
        ensures
            proof.ledger_info == ledger_info,
    {
        LedgerInfoWithSignatures { ledger_info }
    }

    pub fn ledger_info(&self) -> (info: &LedgerInfo)
        ensures
            *info == self.ledger_info,
    {
        &self.ledger_info
    }
}

/// A quorum certificate: the block that was certified and the ledger state
/// that its certification makes final.
#[derive(Clone, Copy, Debug, PartialEq, Eq, Structural)]
pub struct QuorumCert {
    pub certified_block_id: HashValue,
    pub signed_ledger_info: LedgerInfoWithSignatures,
}

impl QuorumCert {
    pub fn new(certified_block_id: HashValue, signed_ledger_info: LedgerInfoWithSignatures) -> (cert: QuorumCert)
        ensures
            cert.certified_block_id == certified_block_id,
            cert.signed_ledger_info == signed_ledger_info,
    {
        QuorumCert { certified_block_id, signed_ledger_info }
    }

    pub fn ledger_info(&self) -> (proof: &LedgerInfoWithSignatures)
        ensures
            *proof == self.signed_ledger_info,
    {
        &self.signed_ledger_info
    }
}

/// Whether the engine kept a transaction or threw it away.
#[derive(Clone, Copy, Debug, PartialEq, Eq, Structural)]
pub enum TransactionStatus {
    Keep,
    Discard,
}

/// The summary of one block's execution: one status for each transaction that
/// ran. Its length is the number of transactions of the block.
#[derive(Debug)]
pub struct StateComputeResult {
    pub compute_status: Vec<TransactionStatus>,
}

} // verus!
