//! What the bridge measures. The bridge decides what is observed and with
//! which value; recording it is left to the caller.

use vstd::prelude::*;

verus! {

/// One measurement, or one change of a counter or gauge.
#[derive(Clone, Copy, Debug, PartialEq, Eq, Structural)]
pub enum Observation {
    /// Time spent executing a block that held no transaction, in nanoseconds.
    EmptyBlockExecutionDuration(u128),
    /// Time spent executing a block that held transactions, in nanoseconds.
    BlockExecutionDuration(u128),
    /// Average time spent on one transaction of a block, in nanoseconds.
    TxnExecutionDuration(u64),
    /// Time spent making a run of blocks durable, in nanoseconds.
    BlockCommitDuration(u128),
    /// The gauge of the last committed version takes this value.
    LastCommittedVersion(u64),
    /// The counter of requested synchronisations grows by one.
    StateSyncRequested,
}

/// How the time spent on one block is reported.
#[derive(Clone, Copy, Debug, PartialEq, Eq, Structural)]
pub enum ExecutionTiming {
    /// The block held no transaction.
    EmptyBlock { elapsed_nanos: u128 },
    /// The block held transactions. The average per transaction is given
    /// where it fits in 64 bits.
    Block { elapsed_nanos: u128, nanos_per_txn: Option<u64> },
}

/// The average time per transaction, where there is one and it fits.
pub open spec fn nanos_per_txn(elapsed_nanos: u128, num_txns: usize) -> Option<u64> {
    if num_txns > 0 && elapsed_nanos as int / num_txns as int <= u64::MAX as int {
        Some((elapsed_nanos as int / num_txns as int) as u64)
    } else {
        None
    }
}

/// How an execution that took `elapsed_nanos` and ran `num_txns` transactions
/// is reported.
pub open spec fn execution_timing(elapsed_nanos: u128, num_txns: usize) -> ExecutionTiming {
    if num_txns == 0 {
        ExecutionTiming::EmptyBlock { elapsed_nanos }
    } else {
        ExecutionTiming::Block {
            elapsed_nanos,
            nanos_per_txn: nanos_per_txn(elapsed_nanos, num_txns),
        }
    }
}

/// Classifies the time spent on one block by the number of transactions that
/// ran, and averages it per transaction.
pub fn classify_execution(elapsed_nanos: u128, num_txns: usize) -> (timing: ExecutionTiming)
    ensures
        timing == execution_timing(elapsed_nanos, num_txns),
{
    if num_txns == 0 {
        ExecutionTiming::EmptyBlock { elapsed_nanos }
    } else {
        let average: u128 = elapsed_nanos / (num_txns as u128);
        let nanos_per_txn: Option<u64> = if average <= u64::MAX as u128 {
            Some(average as u64)
        } else {
            None
        };
        ExecutionTiming::Block { elapsed_nanos, nanos_per_txn }
    }
}

impl ExecutionTiming {
    /// The observations that report this timing, in the order in which they
    /// are recorded.
    pub open spec fn observations_spec(self) -> Seq<Observation> {
        match self {
            ExecutionTiming::EmptyBlock { elapsed_nanos } => seq![
                Observation::EmptyBlockExecutionDuration(elapsed_nanos),
            ],
            ExecutionTiming::Block { elapsed_nanos, nanos_per_txn: None } => seq![
                Observation::BlockExecutionDuration(elapsed_nanos),
            ],
            ExecutionTiming::Block { elapsed_nanos, nanos_per_txn: Some(average) } => seq![
                Observation::BlockExecutionDuration(elapsed_nanos),
                Observation::TxnExecutionDuration(average),
            ],
        }
    }

    pub fn observations(self) -> (list: Vec<Observation>)
        ensures
            list@ == self.observations_spec(),
    {
        let mut list: Vec<Observation> = Vec::new();
        match self {
            ExecutionTiming::EmptyBlock { elapsed_nanos } => {
                list.push(Observation::EmptyBlockExecutionDuration(elapsed_nanos));
            },
            ExecutionTiming::Block { elapsed_nanos, nanos_per_txn } => {
                list.push(Observation::BlockExecutionDuration(elapsed_nanos));
                match nanos_per_txn {
                    Some(average) => {
                        list.push(Observation::TxnExecutionDuration(average));
                    },
                    None => {},
                }
            },
        }
        assert(list@ =~= self.observations_spec());
        list
    }
}

/// A block without transactions is reported as an empty block, whatever time
/// it took, and never as a block execution.
pub proof fn lemma_empty_block_timing(elapsed_nanos: u128)
    ensures
        execution_timing(elapsed_nanos, 0) == (ExecutionTiming::EmptyBlock { elapsed_nanos }),
        execution_timing(elapsed_nanos, 0).observations_spec() == seq![
            Observation::EmptyBlockExecutionDuration(elapsed_nanos),
        ],
{
}

/// For a block with transactions, the average that is reported is the
/// elapsed time divided by their number, rounded down; it is reported exactly
/// when that quotient fits in 64 bits, and the block is never reported as
/// empty.
pub proof fn lemma_per_txn_timing(elapsed_nanos: u128, num_txns: usize)
    requires
        num_txns > 0,
    ensures
        execution_timing(elapsed_nanos, num_txns) matches ExecutionTiming::Block {
            elapsed_nanos: total,
            nanos_per_txn: average,
        } && total == elapsed_nanos && (average matches Some(nanos) ==> nanos as int
            == elapsed_nanos as int / num_txns as int) && (average is Some <==> elapsed_nanos as int
            / num_txns as int <= u64::MAX as int),
{
}

} // verus!
