//! The bridge between consensus and the execution engine. Each operation of
//! consensus is cut in two at the point where the engine works: the first half
//! says what to ask of the engine, the second takes what the engine gave and
//! says what consensus gets and what is measured.

use std::sync::Arc;
use vstd::prelude::*;
use futures::channel::oneshot::{Canceled, Receiver};
use crate::metrics::{classify_execution, execution_timing, Observation};
use crate::progress::SyncFailure;
use crate::sequence::reversed;
use crate::synchronizer::{Error, StateSyncClient};
use crate::types::{
    batch_view, user_transactions, Block, HashValue, LedgerInfoWithSignatures, QuorumCert,
    SignedTransaction, StateComputeResult, Transaction, TransactionKind, Version,
};

verus! {

/// Why the engine gave no result.
#[derive(Debug)]
pub enum ExecutionError<E> {
    /// The engine reported this failure; it is passed on as it came.
    Failed(E),
    /// The engine went away before it answered.
    Canceled,
}

/// What to ask of the engine in order to execute a block.
#[derive(Debug)]
pub struct ExecuteRequest {
    /// The block's transactions, in order.
    pub transactions: Vec<Transaction>,
    /// The block on whose state the transactions run.
    pub parent_id: HashValue,
    /// The block that is executed.
    pub block_id: HashValue,
}

/// What consensus gets from `compute`, and what was measured.
pub struct Computed<O, E> {
    pub result: Result<(O, StateComputeResult), ExecutionError<E>>,
    pub observations: Vec<Observation>,
}

/// One executed block, ready to be made durable: its transactions and the
/// output that executing them gave.
pub struct CommittableBlock<O> {
    pub transactions: Vec<Transaction>,
    pub output: Arc<O>,
}

/// What to ask of the engine in order to commit a run of blocks.
pub struct CommitRequest<O> {
    /// The blocks, in the order in which they were given.
    pub blocks: Vec<CommittableBlock<O>>,
    /// The proof that makes them final.
    pub finality_proof: LedgerInfoWithSignatures,
    /// The version that the proof certifies.
    pub version: Version,
}

/// What consensus gets from `commit`, and what was measured.
pub struct Committed<E> {
    pub result: Result<(), ExecutionError<E>>,
    pub observations: Vec<Observation>,
    /// How telling the coordinator went, where the commit succeeded. A
    /// failure here is for the log only.
    pub notice: Option<Result<(), Error>>,
}

/// What `sync_to` did: the counter it moved, and the channel on which the
/// coordinator answers.
pub struct SyncRequested {
    pub observations: Vec<Observation>,
    pub waiting: Result<Receiver<Result<bool, SyncFailure>>, Error>,
}

/// Whether a committable block is the given payload with the given output.
pub open spec fn commits<O>(block: CommittableBlock<O>, pair: (Vec<SignedTransaction>, Arc<O>)) -> bool {
    &&& batch_view(block.transactions@) == user_transactions(pair.0@)
    &&& block.output == pair.1
}

/// What consensus gets for an execution that ended with `outcome`.
pub open spec fn compute_result<O, E>(
    outcome: Result<Result<(O, StateComputeResult), E>, Canceled>,
) -> Result<(O, StateComputeResult), ExecutionError<E>> {
    match outcome {
        Ok(Ok(pair)) => Ok(pair),
        Ok(Err(failure)) => Err(ExecutionError::Failed(failure)),
        Err(_) => Err(ExecutionError::Canceled),
    }
}

/// What is measured for an execution that took `elapsed_nanos` and ended
/// with `outcome`: the timing of the block where it succeeded, by the number
/// of statuses in its result, and nothing where it failed.
pub open spec fn compute_observations<O, E>(
    outcome: Result<Result<(O, StateComputeResult), E>, Canceled>,
    elapsed_nanos: u128,
) -> Seq<Observation> {
    match outcome {
        Ok(Ok(pair)) => execution_timing(
            elapsed_nanos,
            pair.1.compute_status.len(),
        ).observations_spec(),
        _ => Seq::empty(),
    }
}

/// What consensus gets for a commit that ended with `outcome`.
pub open spec fn commit_result<E>(outcome: Result<Result<(), E>, Canceled>) -> Result<
    (),
    ExecutionError<E>,
> {
    match outcome {
        Ok(Ok(_)) => Ok(()),
        Ok(Err(failure)) => Err(ExecutionError::Failed(failure)),
        Err(_) => Err(ExecutionError::Canceled),
    }
}

/// What is recorded for a commit up to `version` that took `elapsed_nanos`
/// and ended with `outcome`: where it succeeded, the time it took, and the
/// gauge of the last committed version takes `version`; nothing where it
/// failed.
pub open spec fn commit_observations<E>(
    version: Version,
    outcome: Result<Result<(), E>, Canceled>,
    elapsed_nanos: u128,
) -> Seq<Observation> {
    match outcome {
        Ok(Ok(_)) => seq![
            Observation::BlockCommitDuration(elapsed_nanos),
            Observation::LastCommittedVersion(version),
        ],
        _ => Seq::empty(),
    }
}

/// Each signed transaction of a payload as a user transaction, in order.
pub fn into_user_transactions(payload: Vec<SignedTransaction>) -> (batch: Vec<Transaction>)
    ensures
        batch_view(batch@) == user_transactions(payload@),
{
    let ghost given = payload@;
    let mut rest = reversed(payload);
    let mut batch: Vec<Transaction> = Vec::new();
    while rest.len() > 0
        invariant
            rest@.len() + batch@.len() == given.len(),
            forall|i: int| 0 <= i < batch@.len() ==> batch@[i]@ == TransactionKind::User(given[i]@),
            forall|i: int| 0 <= i < rest@.len() ==> rest@[i] == given[given.len() - 1 - i],
        decreases rest@.len(),
    {
        match rest.pop() {
            Some(signed) => {
                batch.push(Transaction::UserTransaction(signed));
            },
            None => {},
        }
    }
    assert(batch_view(batch@) =~= user_transactions(given));
    batch
}

/// A copy of each signed transaction of a payload as a user transaction, in
/// order.
pub fn to_user_transactions(payload: &Vec<SignedTransaction>) -> (batch: Vec<Transaction>)
    ensures
        batch_view(batch@) == user_transactions(payload@),
{
    let mut batch: Vec<Transaction> = Vec::new();
    let mut at: usize = 0;
    while at < payload.len()
        invariant
            at <= payload@.len(),
            batch@.len() == at,
            forall|i: int| 0 <= i < batch@.len() ==> batch@[i]@ == TransactionKind::User(payload@[i]@),
        decreases payload@.len() - at,
    {
        batch.push(Transaction::UserTransaction(payload[at].clone()));
        at = at + 1;
    }
    assert(batch_view(batch@) =~= user_transactions(payload@));
    batch
}

impl<O> CommittableBlock<O> {
    pub fn new(transactions: Vec<Transaction>, output: Arc<O>) -> (block: CommittableBlock<O>)
        ensures
            block.transactions == transactions,
            block.output == output,
    {
        CommittableBlock { transactions, output }
    }
}

/// The bridge. It owns nothing but its handle on the coordinator.
pub struct ExecutionProxy {
    synchronizer: Arc<StateSyncClient>,
}

impl ExecutionProxy {
    /// The handle through which this bridge reaches the coordinator.
    pub closed spec fn synchronizer(&self) -> Arc<StateSyncClient> {
        self.synchronizer
    }

    pub fn new(synchronizer: Arc<StateSyncClient>) -> (proxy: ExecutionProxy)
        ensures
            proxy.synchronizer() == synchronizer,
    {
        ExecutionProxy { synchronizer }
    }

    /// The first half of executing a block: the batch to run is the block's
    /// payload, each signed transaction as a user transaction, and an empty
    /// batch where the block has no payload; it runs on the state of the
    /// block's parent.
    pub fn compute(&self, block: &Block) -> (request: ExecuteRequest)
        ensures
            batch_view(request.transactions@) == user_transactions(block.payload_seq()),
            request.parent_id == block.parent_id,
            request.block_id == block.id,
    {
        let transactions = match block.payload() {
            Some(payload) => to_user_transactions(payload),
            None => {
                let empty: Vec<Transaction> = Vec::new();
                assert(batch_view(empty@) =~= user_transactions(block.payload_seq()));
                empty
            },
        };
        ExecuteRequest { transactions, parent_id: block.parent_id(), block_id: block.id() }
    }

    /// The second half of executing a block. A result is handed on as it
    /// came, and the time it took is reported by the number of statuses in it:
    /// as an empty block where there is none, else as a block execution, with
    /// the average per transaction where that fits in 64 bits. A failure is
    /// handed on as it came and nothing is measured.
    pub fn computed<O, E>(
        outcome: Result<Result<(O, StateComputeResult), E>, Canceled>,
        elapsed_nanos: u128,
    ) -> (computed: Computed<O, E>)
        ensures
            computed.result == compute_result(outcome),
            computed.observations@ == compute_observations(outcome, elapsed_nanos),
    {
        match outcome {
            Ok(Ok((output, state_compute_result))) => {
                let num_txns: usize = state_compute_result.compute_status.len();
                let observations = classify_execution(elapsed_nanos, num_txns).observations();
                Computed { result: Ok((output, state_compute_result)), observations }
            },
            Ok(Err(failure)) => Computed {
                result: Err(ExecutionError::Failed(failure)),
                observations: Vec::new(),
            },
            Err(_) => Computed { result: Err(ExecutionError::Canceled), observations: Vec::new() },
        }
    }

    /// The first half of a commit: each payload becomes a committable block
    /// with its own output, in the order given, to be made durable under the
    /// proof.
    pub fn commit<O>(
        &self,
        payload_and_output_list: Vec<(Vec<SignedTransaction>, Arc<O>)>,
        finality_proof: LedgerInfoWithSignatures,
    ) -> (request: CommitRequest<O>)
        ensures
            request.version == finality_proof.ledger_info.version,
            request.finality_proof == finality_proof,
            request.blocks@.len() == payload_and_output_list@.len(),
            forall|i: int|
                0 <= i < request.blocks@.len() ==> commits(
                    #[trigger] request.blocks@[i],
                    payload_and_output_list@[i],
                ),
    {
        let version = finality_proof.ledger_info().version();
        let ghost given = payload_and_output_list@;
        let mut rest = reversed(payload_and_output_list);
        let mut blocks: Vec<CommittableBlock<O>> = Vec::new();
        while rest.len() > 0
            invariant
                rest@.len() + blocks@.len() == given.len(),
                forall|i: int| 0 <= i < blocks@.len() ==> commits(#[trigger] blocks@[i], given[i]),
                forall|i: int| 0 <= i < rest@.len() ==> rest@[i] == given[given.len() - 1 - i],
            decreases rest@.len(),
        {
            match rest.pop() {
                Some(payload_and_output) => {
                    blocks.push(
                        CommittableBlock::new(
                            into_user_transactions(payload_and_output.0),
                            payload_and_output.1,
                        ),
                    );
                },
                None => {},
            }
        }
        CommitRequest { blocks, finality_proof, version }
    }

    /// The second half of a commit under `finality_proof`. Where the engine
    /// made the blocks durable, the time it took is recorded, the gauge of
    /// the last committed version takes the version that the proof certifies,
    /// the coordinator is told that version, and the commit has succeeded
    /// whatever became of that notice. Where it did not, its failure is handed
    /// on as it came, nothing is recorded and the coordinator is not told.
    pub fn committed<E>(
        &self,
        finality_proof: &LedgerInfoWithSignatures,
        outcome: Result<Result<(), E>, Canceled>,
        elapsed_nanos: u128,
    ) -> (committed: Committed<E>)
        ensures
            committed.result == commit_result(outcome),
            committed.observations@ == commit_observations(
                finality_proof.ledger_info.version,
                outcome,
                elapsed_nanos,
            ),
            committed.notice is Some <==> outcome matches Ok(Ok(_)),
            committed.notice matches Some(Err(error)) ==> error == Error::CoordinatorUnreachable,
    {
        match outcome {
            Ok(Ok(())) => {
                let version = finality_proof.ledger_info().version();
                let mut observations: Vec<Observation> = Vec::new();
                observations.push(Observation::BlockCommitDuration(elapsed_nanos));
                observations.push(Observation::LastCommittedVersion(version));
                let notice = self.synchronizer.commit(version);
                assert(observations@ =~= seq![
                    Observation::BlockCommitDuration(elapsed_nanos),
                    Observation::LastCommittedVersion(version),
                ]);
                Committed { result: Ok(()), observations, notice: Some(notice) }
            },
            Ok(Err(failure)) => Committed {
                result: Err(ExecutionError::Failed(failure)),
                observations: Vec::new(),
                notice: None,
            },
            Err(_) => Committed {
                result: Err(ExecutionError::Canceled),
                observations: Vec::new(),
                notice: None,
            },
        }
    }

    /// Asks the coordinator to bring the replica to the ledger state that the
    /// certificate makes final. The request is counted whether or not it can
    /// be made.
    pub fn sync_to(&self, commit: QuorumCert) -> (requested: SyncRequested)
        ensures
            requested.observations@ == seq![Observation::StateSyncRequested],
            requested.waiting matches Err(error) ==> error == Error::CoordinatorUnreachable,
    {
        let mut observations: Vec<Observation> = Vec::new();
        observations.push(Observation::StateSyncRequested);
        let waiting = self.synchronizer.sync_to(*commit.ledger_info());
        assert(observations@ =~= seq![Observation::StateSyncRequested]);
        SyncRequested { observations, waiting }
    }
}

/// Whether a result of the engine has one status for each transaction of the
/// block.
pub open spec fn answers_block(result: StateComputeResult, block: Block) -> bool {
    result.compute_status@.len() == block.payload_seq().len()
}

/// A block without transactions, whether it has no payload or an empty one,
/// is asked of the engine as an empty batch, and once executed it is timed as
/// an empty block and as nothing else.
pub proof fn lemma_empty_payload_timed_as_empty_block<O, E>(
    block: Block,
    output: O,
    result: StateComputeResult,
    elapsed_nanos: u128,
)
    requires
        block.payload_seq().len() == 0,
        answers_block(result, block),
    ensures
        user_transactions(block.payload_seq()).len() == 0,
        compute_observations::<O, E>(Ok(Ok((output, result))), elapsed_nanos) == seq![
            Observation::EmptyBlockExecutionDuration(elapsed_nanos),
        ],
{
}

/// A block with transactions, once executed, is timed as a block execution;
/// the average per transaction follows where the elapsed time divided by the
/// number of transactions, rounded down, fits in 64 bits, and it is that
/// quotient; where it does not fit, no average is recorded.
pub proof fn lemma_payload_timed_per_transaction<O, E>(
    block: Block,
    output: O,
    result: StateComputeResult,
    elapsed_nanos: u128,
)
    requires
        block.payload_seq().len() > 0,
        answers_block(result, block),
    ensures
        ({
            let average = elapsed_nanos as int / block.payload_seq().len() as int;
            let observed = compute_observations::<O, E>(Ok(Ok((output, result))), elapsed_nanos);
            if average <= u64::MAX as int {
                observed == seq![
                    Observation::BlockExecutionDuration(elapsed_nanos),
                    Observation::TxnExecutionDuration(average as u64),
                ]
            } else {
                observed == seq![Observation::BlockExecutionDuration(elapsed_nanos)]
            }
        }),
{
}

} // verus!
