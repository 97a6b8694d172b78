use std::sync::Arc;

use futures::channel::mpsc::UnboundedReceiver;
use futures::channel::oneshot;
use futures::executor::block_on;
use state_bridge::channel::CoordinatorMessage;
use state_bridge::metrics::{classify_execution, ExecutionTiming, Observation};
use state_bridge::state_computer::{
    into_user_transactions, to_user_transactions, ExecutionError, ExecutionProxy,
};
use state_bridge::synchronizer::{Error, StateSyncClient, StateSynchronizer};
use state_bridge::types::{
    Block, HashValue, LedgerInfo, LedgerInfoWithSignatures, QuorumCert, SignedTransaction,
    StateComputeResult, Transaction, TransactionStatus,
};

fn hash(low: u128) -> HashValue {
    HashValue { high: 0, low }
}

fn signed(bytes: &[u8]) -> SignedTransaction {
    SignedTransaction { raw: bytes.to_vec() }
}

fn proof_of(version: u64) -> LedgerInfoWithSignatures {
    LedgerInfoWithSignatures::new(LedgerInfo::new(version))
}

fn statuses(count: usize) -> StateComputeResult {
    StateComputeResult { compute_status: vec![TransactionStatus::Keep; count] }
}

fn user_bytes(transaction: &Transaction) -> Vec<u8> {
    match transaction {
        Transaction::UserTransaction(signed) => signed.raw.clone(),
        Transaction::WriteSet(_) => panic!("the bridge builds user transactions only"),
    }
}

fn bridge(start: u64) -> (ExecutionProxy, StateSynchronizer, UnboundedReceiver<CoordinatorMessage>) {
    let (synchronizer, _coordinator, receiver) = StateSynchronizer::bootstrap_with_executor_proxy(start);
    let proxy = ExecutionProxy::new(synchronizer.create_client());
    (proxy, synchronizer, receiver)
}

fn canceled() -> oneshot::Canceled {
    let (sender, receiver) = oneshot::channel::<()>();
    drop(sender);
    match block_on(receiver) {
        Ok(()) => panic!("nothing was sent"),
        Err(canceled) => canceled,
    }
}

#[test]
fn classify_empty_block() {
    assert_eq!(classify_execution(1_500, 0), ExecutionTiming::EmptyBlock { elapsed_nanos: 1_500 });
    assert_eq!(
        classify_execution(1_500, 0).observations(),
        vec![Observation::EmptyBlockExecutionDuration(1_500)]
    );
}

#[test]
fn classify_block_divides_rounding_down() {
    assert_eq!(
        classify_execution(1_000, 3),
        ExecutionTiming::Block { elapsed_nanos: 1_000, nanos_per_txn: Some(333) }
    );
    assert_eq!(
        classify_execution(1_000, 3).observations(),
        vec![Observation::BlockExecutionDuration(1_000), Observation::TxnExecutionDuration(333)]
    );
}

#[test]
fn classify_block_at_the_edge_of_64_bits() {
    let most: u128 = u64::MAX as u128;
    assert_eq!(
        classify_execution(most, 1),
        ExecutionTiming::Block { elapsed_nanos: most, nanos_per_txn: Some(u64::MAX) }
    );
    assert_eq!(
        classify_execution(most + 1, 1),
        ExecutionTiming::Block { elapsed_nanos: most + 1, nanos_per_txn: None }
    );
    assert_eq!(
        classify_execution(most + 1, 1).observations(),
        vec![Observation::BlockExecutionDuration(most + 1)]
    );
    assert_eq!(
        classify_execution((most + 1) * 2, 4),
        ExecutionTiming::Block { elapsed_nanos: (most + 1) * 2, nanos_per_txn: Some(1 << 63) }
    );
}

#[test]
fn classify_block_faster_than_its_count() {
    assert_eq!(
        classify_execution(2, 3),
        ExecutionTiming::Block { elapsed_nanos: 2, nanos_per_txn: Some(0) }
    );
}

#[test]
fn user_transactions_keep_order_and_bytes() {
    let payload = vec![signed(&[1]), signed(&[2, 2]), signed(&[])];
    let copied: Vec<Vec<u8>> = to_user_transactions(&payload).iter().map(user_bytes).collect();
    assert_eq!(copied, vec![vec![1], vec![2, 2], vec![]]);
    let moved: Vec<Vec<u8>> = into_user_transactions(payload).iter().map(user_bytes).collect();
    assert_eq!(moved, vec![vec![1], vec![2, 2], vec![]]);
}

#[test]
fn compute_three_transactions() {
    let (proxy, _synchronizer, _receiver) = bridge(0);
    let block = Block::new(hash(2), hash(1), Some(vec![signed(&[10]), signed(&[20]), signed(&[30])]));
    let request = proxy.compute(&block);
    assert_eq!(request.parent_id, hash(1));
    assert_eq!(request.block_id, hash(2));
    let sent: Vec<Vec<u8>> = request.transactions.iter().map(user_bytes).collect();
    assert_eq!(sent, vec![vec![10], vec![20], vec![30]]);

    let computed = ExecutionProxy::computed::<u32, String>(Ok(Ok((7, statuses(3)))), 900);
    match computed.result {
        Ok((output, result)) => {
            assert_eq!(output, 7);
            assert_eq!(result.compute_status.len(), 3);
        }
        Err(_) => panic!("the execution succeeded"),
    }
    assert_eq!(
        computed.observations,
        vec![Observation::BlockExecutionDuration(900), Observation::TxnExecutionDuration(300)]
    );
}

#[test]
fn compute_block_without_payload() {
    let (proxy, _synchronizer, _receiver) = bridge(0);
    let block = Block::new(hash(5), hash(4), None);
    let request = proxy.compute(&block);
    assert!(request.transactions.is_empty());
    assert_eq!(request.parent_id, hash(4));
    assert_eq!(request.block_id, hash(5));
}

#[test]
fn compute_block_with_empty_payload() {
    let (proxy, _synchronizer, _receiver) = bridge(0);
    let block = Block::new(hash(5), hash(4), Some(Vec::new()));
    assert!(proxy.compute(&block).transactions.is_empty());
    let computed = ExecutionProxy::computed::<u32, String>(Ok(Ok((1, statuses(0)))), 77);
    assert!(computed.result.is_ok());
    assert_eq!(computed.observations, vec![Observation::EmptyBlockExecutionDuration(77)]);
}

#[test]
fn compute_failure_is_handed_on() {
    let computed = ExecutionProxy::computed::<u32, String>(Ok(Err("invalid".to_string())), 5);
    match computed.result {
        Err(ExecutionError::Failed(reason)) => assert_eq!(reason, "invalid"),
        _ => panic!("the engine failed"),
    }
    assert!(computed.observations.is_empty());
}

#[test]
fn compute_canceled_is_told_apart() {
    let computed = ExecutionProxy::computed::<u32, String>(Err(canceled()), 5);
    assert!(matches!(computed.result, Err(ExecutionError::Canceled)));
    assert!(computed.observations.is_empty());
}

#[test]
fn commit_of_many_blocks_sets_gauge_to_the_proof() {
    let (proxy, _synchronizer, mut receiver) = bridge(0);
    let list = vec![
        (vec![signed(&[1])], Arc::new(1u32)),
        (vec![signed(&[2])], Arc::new(2u32)),
    ];
    let request = proxy.commit(list, proof_of(1_000));
    assert_eq!(request.blocks.len(), 2);
    let committed = proxy.committed::<String>(&request.finality_proof, Ok(Ok(())), 5);
    assert_eq!(
        committed.observations,
        vec![Observation::BlockCommitDuration(5), Observation::LastCommittedVersion(1_000)]
    );
    assert!(matches!(receiver.try_recv(), Ok(CoordinatorMessage::Commit(1_000))));
}

#[test]
fn commit_pairs_outputs_with_payloads() {
    let (proxy, _synchronizer, _receiver) = bridge(0);
    let list = vec![
        (vec![signed(&[1]), signed(&[2])], Arc::new(100u32)),
        (Vec::new(), Arc::new(200u32)),
        (vec![signed(&[3])], Arc::new(300u32)),
    ];
    let request = proxy.commit(list, proof_of(42));
    assert_eq!(request.version, 42);
    assert_eq!(request.finality_proof, proof_of(42));
    let outputs: Vec<u32> = request.blocks.iter().map(|block| *block.output).collect();
    assert_eq!(outputs, vec![100, 200, 300]);
    let batches: Vec<Vec<Vec<u8>>> = request
        .blocks
        .iter()
        .map(|block| block.transactions.iter().map(user_bytes).collect())
        .collect();
    assert_eq!(batches, vec![vec![vec![1], vec![2]], vec![], vec![vec![3]]]);
}

#[test]
fn commit_of_no_block_still_sets_gauge_and_notifies() {
    let (proxy, _synchronizer, mut receiver) = bridge(0);
    let request = proxy.commit(Vec::<(Vec<SignedTransaction>, Arc<u32>)>::new(), proof_of(9));
    assert!(request.blocks.is_empty());
    assert_eq!(request.version, 9);
    let committed = proxy.committed::<String>(&request.finality_proof, Ok(Ok(())), 1_000);
    assert!(matches!(committed.result, Ok(())));
    assert_eq!(
        committed.observations,
        vec![Observation::BlockCommitDuration(1_000), Observation::LastCommittedVersion(9)]
    );
    assert_eq!(committed.notice, Some(Ok(())));
    assert!(matches!(receiver.try_recv(), Ok(CoordinatorMessage::Commit(9))));
}

#[test]
fn commit_succeeds_when_the_notice_fails() {
    let (proxy, _synchronizer, receiver) = bridge(0);
    drop(receiver);
    let committed = proxy.committed::<String>(&proof_of(12), Ok(Ok(())), 64);
    assert!(matches!(committed.result, Ok(())));
    assert_eq!(
        committed.observations,
        vec![Observation::BlockCommitDuration(64), Observation::LastCommittedVersion(12)]
    );
    assert_eq!(committed.notice, Some(Err(Error::CoordinatorUnreachable)));
}

#[test]
fn commit_failure_is_handed_on_and_not_notified() {
    let (proxy, _synchronizer, mut receiver) = bridge(0);
    let committed = proxy.committed::<String>(&proof_of(12), Ok(Err("disk".to_string())), 64);
    match committed.result {
        Err(ExecutionError::Failed(reason)) => assert_eq!(reason, "disk"),
        _ => panic!("the engine failed"),
    }
    assert!(committed.observations.is_empty());
    assert_eq!(committed.notice, None);
    assert!(receiver.try_recv().is_err());

    let committed = proxy.committed::<String>(&proof_of(12), Err(canceled()), 64);
    assert!(matches!(committed.result, Err(ExecutionError::Canceled)));
    assert!(committed.observations.is_empty());
    assert_eq!(committed.notice, None);
    assert!(receiver.try_recv().is_err());
}

#[test]
fn sync_to_counts_once_and_asks_for_the_certified_state() {
    let (proxy, _synchronizer, mut receiver) = bridge(50);
    let requested = proxy.sync_to(QuorumCert::new(hash(8), proof_of(50)));
    assert_eq!(requested.observations, vec![Observation::StateSyncRequested]);
    assert!(requested.waiting.is_ok());
    match receiver.try_recv() {
        Ok(CoordinatorMessage::Requested(target, _)) => assert_eq!(target, proof_of(50)),
        _ => panic!("a request for a sync was posted"),
    }
}

#[test]
fn sync_to_at_current_version_answers_false() {
    let (synchronizer, mut coordinator, mut receiver) = StateSynchronizer::bootstrap_with_executor_proxy(50);
    let proxy = ExecutionProxy::new(synchronizer.create_client());
    let requested = proxy.sync_to(QuorumCert::new(hash(8), proof_of(50)));
    assert_eq!(requested.observations, vec![Observation::StateSyncRequested]);
    let message = receiver.try_recv().unwrap();
    coordinator.process(message);
    assert_eq!(coordinator.synced_version(), 50);
    let waiting = requested.waiting.unwrap();
    assert_eq!(StateSyncClient::sync_status(block_on(waiting)), Ok(false));
}

#[test]
fn sync_to_counts_even_when_the_coordinator_is_gone() {
    let (proxy, _synchronizer, receiver) = bridge(50);
    drop(receiver);
    let requested = proxy.sync_to(QuorumCert::new(hash(8), proof_of(60)));
    assert_eq!(requested.observations, vec![Observation::StateSyncRequested]);
    assert!(matches!(requested.waiting, Err(Error::CoordinatorUnreachable)));
}
