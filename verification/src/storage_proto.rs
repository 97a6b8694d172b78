//! Helpers to build and read the messages of the storage service. A helper
//! holds the values of a message in their checked form. The nested values are
//! converted by their own types; a helper is put together from what those
//! conversions gave, and the first of them that failed, in the order of the
//! message's fields, fails the whole.

use vstd::prelude::*;
use crate::sequence::{collect, collected, successes, transpose, transposed};
use crate::sequence::lemma_collected_successes;
use crate::types::{HashValue, Version};

verus! {

/// The request for the state of one account at one version, with its proof.
#[derive(Clone, Debug, PartialEq, Eq)]
pub struct GetAccountStateWithProofByVersionRequest<A> {
    /// The account asked for.
    pub address: A,
    /// The version the query is based on.
    pub version: Version,
}

impl<A> GetAccountStateWithProofByVersionRequest<A> {
    pub fn new(address: A, version: Version) -> (request: Self)
        ensures
            request.address == address,
            request.version == version,
    {
        Self { address, version }
    }

    /// The helper for a message with these fields.
    pub open spec fn from_proto<E>(address: Result<A, E>, version: Version) -> Result<Self, E> {
        match address {
            Ok(address) => Ok(Self { address, version }),
            Err(error) => Err(error),
        }
    }

    /// The fields of the message for this helper.
    pub open spec fn to_proto(self) -> (A, Version) {
        (self.address, self.version)
    }

    pub fn try_from_proto<E>(address: Result<A, E>, version: Version) -> (request: Result<Self, E>)
        ensures
            request == Self::from_proto(address, version),
    {
        match address {
            Ok(address) => Ok(Self { address, version }),
            Err(error) => Err(error),
        }
    }

    pub fn into_proto(self) -> (fields: (A, Version))
        ensures
            fields == self.to_proto(),
    {
        (self.address, self.version)
    }
}

/// The answer to `GetAccountStateWithProofByVersionRequest`.
#[derive(Clone, Debug, PartialEq, Eq)]
pub struct GetAccountStateWithProofByVersionResponse<B, P> {
    /// The account state blob requested; none where the account does not
    /// exist.
    pub account_state_blob: Option<B>,
    /// The proof of the blob, or of its absence.
    pub sparse_merkle_proof: P,
}

impl<B, P> GetAccountStateWithProofByVersionResponse<B, P> {
    pub fn new(account_state_blob: Option<B>, sparse_merkle_proof: P) -> (response: Self)
        ensures
            response.account_state_blob == account_state_blob,
            response.sparse_merkle_proof == sparse_merkle_proof,
    {
        Self { account_state_blob, sparse_merkle_proof }
    }

    /// The helper for a message with these fields. The blob is looked at
    /// first.
    pub open spec fn from_proto<E>(
        account_state_blob: Option<Result<B, E>>,
        sparse_merkle_proof: Result<P, E>,
    ) -> Result<Self, E> {
        match (transposed(account_state_blob), sparse_merkle_proof) {
            (Err(error), _) => Err(error),
            (Ok(_), Err(error)) => Err(error),
            (Ok(account_state_blob), Ok(sparse_merkle_proof)) => Ok(
                Self { account_state_blob, sparse_merkle_proof },
            ),
        }
    }

    /// The fields of the message for this helper: the proof is always there.
    pub open spec fn to_proto(self) -> (Option<B>, Option<P>) {
        (self.account_state_blob, Some(self.sparse_merkle_proof))
    }

    pub fn try_from_proto<E>(
        account_state_blob: Option<Result<B, E>>,
        sparse_merkle_proof: Result<P, E>,
    ) -> (response: Result<Self, E>)
        ensures
            response == Self::from_proto(account_state_blob, sparse_merkle_proof),
    {
        let account_state_blob = match transpose(account_state_blob) {
            Ok(blob) => blob,
            Err(error) => {
                return Err(error);
            },
        };
        match sparse_merkle_proof {
            Ok(sparse_merkle_proof) => Ok(Self { account_state_blob, sparse_merkle_proof }),
            Err(error) => Err(error),
        }
    }

    pub fn into_proto(self) -> (fields: (Option<B>, Option<P>))
        ensures
            fields == self.to_proto(),
    {
        (self.account_state_blob, Some(self.sparse_merkle_proof))
    }

    /// The blob and the proof.
    pub fn into_parts(self) -> (parts: (Option<B>, P))
        ensures
            parts == (self.account_state_blob, self.sparse_merkle_proof),
    {
        (self.account_state_blob, self.sparse_merkle_proof)
    }
}

/// The request to save a run of transactions, starting at a version.
#[derive(Clone, Debug, PartialEq, Eq)]
pub struct SaveTransactionsRequest<T, L> {
    pub txns_to_commit: Vec<T>,
    pub first_version: Version,
    pub ledger_info_with_signatures: Option<L>,
}

/// What a `SaveTransactionsRequest` holds.
pub struct SaveTransactionsRequestView<T, L> {
    pub txns_to_commit: Seq<T>,
    pub first_version: Version,
    pub ledger_info_with_signatures: Option<L>,
}

impl<T, L> View for SaveTransactionsRequest<T, L> {
    type V = SaveTransactionsRequestView<T, L>;

    open spec fn view(&self) -> SaveTransactionsRequestView<T, L> {
        SaveTransactionsRequestView {
            txns_to_commit: self.txns_to_commit@,
            first_version: self.first_version,
            ledger_info_with_signatures: self.ledger_info_with_signatures,
        }
    }
}

impl<T, L> SaveTransactionsRequest<T, L> {
    pub fn new(txns_to_commit: Vec<T>, first_version: Version, ledger_info_with_signatures: Option<L>) -> (request: Self)
        ensures
            request.txns_to_commit == txns_to_commit,
            request.first_version == first_version,
            request.ledger_info_with_signatures == ledger_info_with_signatures,
    {
        Self { txns_to_commit, first_version, ledger_info_with_signatures }
    }

    /// What the helper for a message with these fields holds. The
    /// transactions are looked at first, in order, then the ledger info.
    pub open spec fn from_proto<E>(
        txns_to_commit: Seq<Result<T, E>>,
        first_version: Version,
        ledger_info_with_signatures: Option<Result<L, E>>,
    ) -> Result<SaveTransactionsRequestView<T, L>, E> {
        match (collected(txns_to_commit), transposed(ledger_info_with_signatures)) {
            (Err(error), _) => Err(error),
            (Ok(_), Err(error)) => Err(error),
            (Ok(txns_to_commit), Ok(ledger_info_with_signatures)) => Ok(
                SaveTransactionsRequestView {
                    txns_to_commit,
                    first_version,
                    ledger_info_with_signatures,
                },
            ),
        }
    }

    pub fn try_from_proto<E>(
        txns_to_commit: Vec<Result<T, E>>,
        first_version: Version,
        ledger_info_with_signatures: Option<Result<L, E>>,
    ) -> (request: Result<Self, E>)
        ensures
            match request {
                Ok(request) => Self::from_proto(
                    txns_to_commit@,
                    first_version,
                    ledger_info_with_signatures,
                ) == Ok::<SaveTransactionsRequestView<T, L>, E>(request@),
                Err(error) => Self::from_proto(
                    txns_to_commit@,
                    first_version,
                    ledger_info_with_signatures,
                ) == Err::<SaveTransactionsRequestView<T, L>, E>(error),
            },
    {
        let txns_to_commit = match collect(txns_to_commit) {
            Ok(txns) => txns,
            Err(error) => {
                return Err(error);
            },
        };
        match transpose(ledger_info_with_signatures) {
            Ok(ledger_info_with_signatures) => Ok(
                Self { txns_to_commit, first_version, ledger_info_with_signatures },
            ),
            Err(error) => Err(error),
        }
    }

    /// The fields of the message for this helper.
    pub fn into_proto(self) -> (fields: (Vec<T>, Version, Option<L>))
        ensures
            fields.0 == self.txns_to_commit,
            fields.1 == self.first_version,
            fields.2 == self.ledger_info_with_signatures,
    {
        (self.txns_to_commit, self.first_version, self.ledger_info_with_signatures)
    }
}

/// The fields of the message that asks for a run of transactions.
#[derive(Clone, Copy, Debug, PartialEq, Eq, Structural)]
pub struct GetTransactionsRequestProto {
    pub start_version: u64,
    pub batch_size: u64,
    pub ledger_version: u64,
    pub fetch_events: bool,
}

/// The request for a run of transactions.
#[derive(Clone, Copy, Debug, PartialEq, Eq, Structural)]
pub struct GetTransactionsRequest {
    pub start_version: Version,
    pub batch_size: u64,
    pub ledger_version: Version,
    pub fetch_events: bool,
}

impl GetTransactionsRequest {
    pub fn new(start_version: Version, batch_size: u64, ledger_version: Version, fetch_events: bool) -> (request: Self)
        ensures
            request == (GetTransactionsRequest {
                start_version,
                batch_size,
                ledger_version,
                fetch_events,
            }),
    {
        GetTransactionsRequest { start_version, batch_size, ledger_version, fetch_events }
    }

    /// The helper for a message. Every message is well formed.
    pub open spec fn from_proto(proto: GetTransactionsRequestProto) -> Self {
        GetTransactionsRequest {
            start_version: proto.start_version,
            batch_size: proto.batch_size,
            ledger_version: proto.ledger_version,
            fetch_events: proto.fetch_events,
        }
    }

    /// The message for this helper.
    pub open spec fn to_proto(self) -> GetTransactionsRequestProto {
        GetTransactionsRequestProto {
            start_version: self.start_version,
            batch_size: self.batch_size,
            ledger_version: self.ledger_version,
            fetch_events: self.fetch_events,
        }
    }

    pub fn try_from_proto(proto: GetTransactionsRequestProto) -> (request: Self)
        ensures
            request == Self::from_proto(proto),
    {
        GetTransactionsRequest {
            start_version: proto.start_version,
            batch_size: proto.batch_size,
            ledger_version: proto.ledger_version,
            fetch_events: proto.fetch_events,
        }
    }

    pub fn into_proto(self) -> (proto: GetTransactionsRequestProto)
        ensures
            proto == self.to_proto(),
    {
        GetTransactionsRequestProto {
            start_version: self.start_version,
            batch_size: self.batch_size,
            ledger_version: self.ledger_version,
            fetch_events: self.fetch_events,
        }
    }
}

/// The answer to `GetTransactionsRequest`.
#[derive(Clone, Debug, PartialEq, Eq)]
pub struct GetTransactionsResponse<T> {
    pub txn_list_with_proof: T,
}

impl<T> GetTransactionsResponse<T> {
    pub fn new(txn_list_with_proof: T) -> (response: Self)
        ensures
            response.txn_list_with_proof == txn_list_with_proof,
    {
        Self { txn_list_with_proof }
    }

    /// The helper for a message with this field.
    pub open spec fn from_proto<E>(txn_list_with_proof: Result<T, E>) -> Result<Self, E> {
        match txn_list_with_proof {
            Ok(txn_list_with_proof) => Ok(Self { txn_list_with_proof }),
            Err(error) => Err(error),
        }
    }

    /// The field of the message for this helper: it is always there.
    pub open spec fn to_proto(self) -> Option<T> {
        Some(self.txn_list_with_proof)
    }

    pub fn try_from_proto<E>(txn_list_with_proof: Result<T, E>) -> (response: Result<Self, E>)
        ensures
            response == Self::from_proto(txn_list_with_proof),
    {
        match txn_list_with_proof {
            Ok(txn_list_with_proof) => Ok(Self { txn_list_with_proof }),
            Err(error) => Err(error),
        }
    }

    pub fn into_proto(self) -> (field: Option<T>)
        ensures
            field == self.to_proto(),
    {
        Some(self.txn_list_with_proof)
    }
}

/// What storage tells a replica that starts up.
#[derive(Clone, Debug, PartialEq, Eq)]
pub struct StartupInfo<L> {
    pub ledger_info: L,
    pub latest_version: Version,
    pub account_state_root_hash: HashValue,
    pub ledger_frozen_subtree_hashes: Vec<HashValue>,
}

/// What a `StartupInfo` holds.
pub struct StartupInfoView<L> {
    pub ledger_info: L,
    pub latest_version: Version,
    pub account_state_root_hash: HashValue,
    pub ledger_frozen_subtree_hashes: Seq<HashValue>,
}

impl<L> View for StartupInfo<L> {
    type V = StartupInfoView<L>;

    open spec fn view(&self) -> StartupInfoView<L> {
        StartupInfoView {
            ledger_info: self.ledger_info,
            latest_version: self.latest_version,
            account_state_root_hash: self.account_state_root_hash,
            ledger_frozen_subtree_hashes: self.ledger_frozen_subtree_hashes@,
        }
    }
}

impl<L> StartupInfo<L> {
    /// What the helper for a message with these fields holds. The ledger
    /// info is looked at first, then the root hash, then the hashes of the
    /// frozen subtrees, in order.
    pub open spec fn from_proto<E>(
        ledger_info: Result<L, E>,
        latest_version: Version,
        account_state_root_hash: Result<HashValue, E>,
        ledger_frozen_subtree_hashes: Seq<Result<HashValue, E>>,
    ) -> Result<StartupInfoView<L>, E> {
        match (ledger_info, account_state_root_hash, collected(ledger_frozen_subtree_hashes)) {
            (Err(error), _, _) => Err(error),
            (Ok(_), Err(error), _) => Err(error),
            (Ok(_), Ok(_), Err(error)) => Err(error),
            (Ok(ledger_info), Ok(account_state_root_hash), Ok(ledger_frozen_subtree_hashes)) => Ok(
                StartupInfoView {
                    ledger_info,
                    latest_version,
                    account_state_root_hash,
                    ledger_frozen_subtree_hashes,
                },
            ),
        }
    }

    pub fn try_from_proto<E>(
        ledger_info: Result<L, E>,
        latest_version: Version,
        account_state_root_hash: Result<HashValue, E>,
        ledger_frozen_subtree_hashes: Vec<Result<HashValue, E>>,
    ) -> (info: Result<Self, E>)
        ensures
            match info {
                Ok(info) => Self::from_proto(
                    ledger_info,
                    latest_version,
                    account_state_root_hash,
                    ledger_frozen_subtree_hashes@,
                ) == Ok::<StartupInfoView<L>, E>(info@),
                Err(error) => Self::from_proto(
                    ledger_info,
                    latest_version,
                    account_state_root_hash,
                    ledger_frozen_subtree_hashes@,
                ) == Err::<StartupInfoView<L>, E>(error),
            },
    {
        let ledger_info = match ledger_info {
            Ok(ledger_info) => ledger_info,
            Err(error) => {
                return Err(error);
            },
        };
        let account_state_root_hash = match account_state_root_hash {
            Ok(hash) => hash,
            Err(error) => {
                return Err(error);
            },
        };
        match collect(ledger_frozen_subtree_hashes) {
            Ok(ledger_frozen_subtree_hashes) => Ok(
                Self {
                    ledger_info,
                    latest_version,
                    account_state_root_hash,
                    ledger_frozen_subtree_hashes,
                },
            ),
            Err(error) => Err(error),
        }
    }

    /// The fields of the message for this helper: the ledger info is always
    /// there.
    pub fn into_proto(self) -> (fields: (Option<L>, Version, HashValue, Vec<HashValue>))
        ensures
            fields.0 == Some(self.ledger_info),
            fields.1 == self.latest_version,
            fields.2 == self.account_state_root_hash,
            fields.3 == self.ledger_frozen_subtree_hashes,
    {
        (
            Some(self.ledger_info),
            self.latest_version,
            self.account_state_root_hash,
            self.ledger_frozen_subtree_hashes,
        )
    }
}

/// The answer to the request for the startup info: none where storage is
/// empty.
#[derive(Clone, Debug, PartialEq, Eq)]
pub struct GetStartupInfoResponse<L> {
    pub info: Option<StartupInfo<L>>,
}

impl<L> GetStartupInfoResponse<L> {
    pub fn try_from_proto<E>(info: Option<Result<StartupInfo<L>, E>>) -> (response: Result<Self, E>)
        ensures
            match response {
                Ok(response) => transposed(info) == Ok::<Option<StartupInfo<L>>, E>(response.info),
                Err(error) => transposed(info) == Err::<Option<StartupInfo<L>>, E>(error),
            },
    {
        match transpose(info) {
            Ok(info) => Ok(Self { info }),
            Err(error) => Err(error),
        }
    }

    /// The field of the message for this helper.
    pub fn into_proto(self) -> (info: Option<StartupInfo<L>>)
        ensures
            info == self.info,
    {
        self.info
    }
}

/// The fields of the message that asks for the latest ledger info of each
/// epoch.
#[derive(Clone, Copy, Debug, PartialEq, Eq, Structural)]
pub struct GetLatestLedgerInfosPerEpochRequestProto {
    pub start_epoch: u64,
}

/// The request for the latest ledger info of each epoch from one on.
#[derive(Clone, Copy, Debug, PartialEq, Eq, Structural)]
pub struct GetLatestLedgerInfosPerEpochRequest {
    pub start_epoch: u64,
}

impl GetLatestLedgerInfosPerEpochRequest {
    pub fn new(start_epoch: u64) -> (request: Self)
        ensures
            request.start_epoch == start_epoch,
    {
        Self { start_epoch }
    }

    /// The helper for a message. Every message is well formed.
    pub open spec fn from_proto(proto: GetLatestLedgerInfosPerEpochRequestProto) -> Self {
        GetLatestLedgerInfosPerEpochRequest { start_epoch: proto.start_epoch }
    }

    /// The message for this helper.
    pub open spec fn to_proto(self) -> GetLatestLedgerInfosPerEpochRequestProto {
        GetLatestLedgerInfosPerEpochRequestProto { start_epoch: self.start_epoch }
    }

    pub fn try_from_proto(proto: GetLatestLedgerInfosPerEpochRequestProto) -> (request: Self)
        ensures
            request == Self::from_proto(proto),
    {
        Self { start_epoch: proto.start_epoch }
    }

    pub fn into_proto(self) -> (proto: GetLatestLedgerInfosPerEpochRequestProto)
        ensures
            proto == self.to_proto(),
    {
        GetLatestLedgerInfosPerEpochRequestProto { start_epoch: self.start_epoch }
    }
}

/// The answer to `GetLatestLedgerInfosPerEpochRequest`.
#[derive(Clone, Debug, PartialEq, Eq)]
pub struct GetLatestLedgerInfosPerEpochResponse<L> {
    pub latest_ledger_infos: Vec<L>,
}

impl<L> GetLatestLedgerInfosPerEpochResponse<L> {
    pub fn new(latest_ledger_infos: Vec<L>) -> (response: Self)
        ensures
            response.latest_ledger_infos == latest_ledger_infos,
    {
        Self { latest_ledger_infos }
    }

    pub fn try_from_proto<E>(latest_ledger_infos: Vec<Result<L, E>>) -> (response: Result<Self, E>)
        ensures
            match response {
                Ok(response) => collected(latest_ledger_infos@) == Ok::<Seq<L>, E>(
                    response.latest_ledger_infos@,
                ),
                Err(error) => collected(latest_ledger_infos@) == Err::<Seq<L>, E>(error),
            },
    {
        match collect(latest_ledger_infos) {
            Ok(latest_ledger_infos) => Ok(Self { latest_ledger_infos }),
            Err(error) => Err(error),
        }
    }

    /// The field of the message for this helper, and the list that the
    /// helper stands for.
    pub fn into_proto(self) -> (latest_ledger_infos: Vec<L>)
        ensures
            latest_ledger_infos == self.latest_ledger_infos,
    {
        self.latest_ledger_infos
    }
}

/// A request for an account's state, written as a message and read again,
/// is the request.
pub proof fn lemma_account_state_request_round_trip<A, E>(
    request: GetAccountStateWithProofByVersionRequest<A>,
)
    ensures
        GetAccountStateWithProofByVersionRequest::<A>::from_proto::<E>(
            Ok(request.to_proto().0),
            request.to_proto().1,
        ) == Ok::<GetAccountStateWithProofByVersionRequest<A>, E>(request),
{
}

/// An answer with an account's state, written as a message and read again,
/// is the answer.
pub proof fn lemma_account_state_response_round_trip<B, P, E>(
    response: GetAccountStateWithProofByVersionResponse<B, P>,
)
    ensures
        GetAccountStateWithProofByVersionResponse::<B, P>::from_proto::<E>(
            match response.to_proto().0 {
                Some(blob) => Some(Ok(blob)),
                None => None,
            },
            Ok(response.to_proto().1->Some_0),
        ) == Ok::<GetAccountStateWithProofByVersionResponse<B, P>, E>(response),
{
}

/// A request to save transactions, written as a message and read again,
/// holds what it held.
pub proof fn lemma_save_transactions_round_trip<T, L, E>(request: SaveTransactionsRequest<T, L>)
    ensures
        SaveTransactionsRequest::<T, L>::from_proto::<E>(
            successes(request.txns_to_commit@),
            request.first_version,
            match request.ledger_info_with_signatures {
                Some(info) => Some(Ok(info)),
                None => None,
            },
        ) == Ok::<SaveTransactionsRequestView<T, L>, E>(request@),
{
    lemma_collected_successes::<T, E>(request.txns_to_commit@);
}

/// A request for transactions, written as a message and read again, is the
/// request; and a message, read and written again, is the message.
pub proof fn lemma_get_transactions_request_round_trip(
    request: GetTransactionsRequest,
    proto: GetTransactionsRequestProto,
)
    ensures
        GetTransactionsRequest::from_proto(request.to_proto()) == request,
        GetTransactionsRequest::from_proto(proto).to_proto() == proto,
{
}

/// An answer with transactions, written as a message and read again, is the
/// answer.
pub proof fn lemma_get_transactions_response_round_trip<T, E>(response: GetTransactionsResponse<T>)
    ensures
        GetTransactionsResponse::<T>::from_proto::<E>(Ok(response.to_proto()->Some_0)) == Ok::<
            GetTransactionsResponse<T>,
            E,
        >(response),
{
}

/// A startup info, written as a message and read again, holds what it held.
pub proof fn lemma_startup_info_round_trip<L, E>(info: StartupInfo<L>)
    ensures
        StartupInfo::<L>::from_proto::<E>(
            Ok(info.ledger_info),
            info.latest_version,
            Ok(info.account_state_root_hash),
            successes(info.ledger_frozen_subtree_hashes@),
        ) == Ok::<StartupInfoView<L>, E>(info@),
{
    lemma_collected_successes::<HashValue, E>(info.ledger_frozen_subtree_hashes@);
}

/// A request for the ledger infos of the epochs, written as a message and
/// read again, is the request; and a message, read and written again, is the
/// message.
pub proof fn lemma_latest_ledger_infos_request_round_trip(
    request: GetLatestLedgerInfosPerEpochRequest,
    proto: GetLatestLedgerInfosPerEpochRequestProto,
)
    ensures
        GetLatestLedgerInfosPerEpochRequest::from_proto(request.to_proto()) == request,
        GetLatestLedgerInfosPerEpochRequest::from_proto(proto).to_proto() == proto,
{
}

} // verus!
