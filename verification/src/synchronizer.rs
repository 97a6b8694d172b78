//! The handles through which the rest of the process reaches the coordinator.

use std::sync::Arc;
use vstd::prelude::*;
use futures::channel::mpsc::{UnboundedReceiver, UnboundedSender};
use futures::channel::oneshot::{channel, Canceled, Receiver};
use crate::channel::{post, CoordinatorMessage};
use crate::coordinator::SyncCoordinator;
use crate::progress::{Event, SyncFailure};
use crate::types::{LedgerInfoWithSignatures, Version};

verus! {

/// Why a call on the coordinator gave no value.
#[derive(Clone, Copy, Debug, PartialEq, Eq, Structural)]
pub enum Error {
    /// The coordinator is gone: its mailbox is closed, or it dropped the
    /// channel on which the answer was awaited.
    CoordinatorUnreachable,
    /// The coordinator ran a catch-up and it failed.
    SyncFailed(SyncFailure),
}

/// The synchroniser as its owner holds it: the sending side of the
/// coordinator's mailbox, from which clients are made.
pub struct StateSynchronizer {
    coordinator_sender: UnboundedSender<CoordinatorMessage>,
}

/// A handle on the coordinator. Handles are cheap, and any number of them may
/// be in use at once; all feed the one mailbox.
pub struct StateSyncClient {
    coordinator_sender: UnboundedSender<CoordinatorMessage>,
}

impl StateSynchronizer {
    /// Sets the synchroniser up: opens the mailbox and makes the coordinator,
    /// which starts from `latest_version`, the version that the replica's
    /// storage reports. The caller runs the coordinator on the receiving side
    /// that is handed back.
    pub fn bootstrap_with_executor_proxy(latest_version: Version) -> (parts: (
        StateSynchronizer,
        SyncCoordinator,
        UnboundedReceiver<CoordinatorMessage>,
    ))
        ensures
            parts.1.version() == latest_version,
    {
        let (coordinator_sender, coordinator_receiver) = futures::channel::mpsc::unbounded();
        let coordinator = SyncCoordinator::new(latest_version);
        (StateSynchronizer { coordinator_sender }, coordinator, coordinator_receiver)
    }

    /// The sending side of the coordinator's mailbox that this synchroniser
    /// holds.
    pub closed spec fn sender(&self) -> UnboundedSender<CoordinatorMessage> {
        self.coordinator_sender
    }

    /// A new handle on the coordinator: it posts to the mailbox that this
    /// synchroniser was set up with, as every other handle made here does.
    pub fn create_client(&self) -> (client: Arc<StateSyncClient>)
        ensures
            client.sender() == self.sender(),
    {
        Arc::new(StateSyncClient { coordinator_sender: self.coordinator_sender.clone() })
    }
}

impl StateSyncClient {
    /// The sending side of the coordinator's mailbox that this handle posts
    /// to.
    pub closed spec fn sender(&self) -> UnboundedSender<CoordinatorMessage> {
        self.coordinator_sender
    }

    /// What a caller of `sync_to` gets once the wait for the answer is over:
    /// the status that the coordinator gave, the failure of its catch-up, or
    /// the news that the coordinator dropped the channel.
    pub open spec fn sync_status_spec(answer: Result<Result<bool, SyncFailure>, Canceled>) -> Result<
        bool,
        Error,
    > {
        match answer {
            Ok(Ok(status)) => Ok(status),
            Ok(Err(failure)) => Err(Error::SyncFailed(failure)),
            Err(_) => Err(Error::CoordinatorUnreachable),
        }
    }

    /// What a caller of `get_state` gets once the wait for the answer is over.
    pub open spec fn state_spec(answer: Result<Version, Canceled>) -> Result<Version, Error> {
        match answer {
            Ok(version) => Ok(version),
            Err(_) => Err(Error::CoordinatorUnreachable),
        }
    }

    /// What a caller of `commit` gets: the notice was taken by the mailbox,
    /// or the coordinator is gone.
    pub open spec fn posted_spec(posted: Result<(), CoordinatorMessage>) -> Result<(), Error> {
        match posted {
            Ok(_) => Ok(()),
            Err(_) => Err(Error::CoordinatorUnreachable),
        }
    }

    /// The message that asks for a sync to `target`, and the channel on
    /// which its answer arrives.
    pub fn sync_request(target: LedgerInfoWithSignatures) -> (request: (
        CoordinatorMessage,
        Receiver<Result<bool, SyncFailure>>,
    ))
        ensures
            request.0 matches CoordinatorMessage::Requested(asked, _) && asked == target,
            request.0.event() == (Event::SyncRequested { target: target.ledger_info.version }),
    {
        let (cb_sender, cb_receiver) = channel();
        (CoordinatorMessage::Requested(target, cb_sender), cb_receiver)
    }

    /// The message that tells of a commit up to `version`.
    pub fn commit_notice(version: Version) -> (notice: CoordinatorMessage)
        ensures
            notice == CoordinatorMessage::Commit(version),
            notice.event() == (Event::Committed { version }),
    {
        CoordinatorMessage::Commit(version)
    }

    /// The message that asks for the recorded version, and the channel on
    /// which its answer arrives.
    pub fn state_query() -> (query: (CoordinatorMessage, Receiver<Version>))
        ensures
            query.0 is GetState,
            query.0.event() == Event::StateQueried,
    {
        let (cb_sender, cb_receiver) = channel();
        (CoordinatorMessage::GetState(cb_sender), cb_receiver)
    }

    /// Asks the coordinator to bring the replica to `target`: posts
    /// `sync_request(target)`. The answer arrives on the channel that is
    /// handed back; `sync_status` reads it. The only failure at this point is
    /// a closed mailbox.
    pub fn sync_to(&self, target: LedgerInfoWithSignatures) -> (waiting: Result<
        Receiver<Result<bool, SyncFailure>>,
        Error,
    >)
        ensures
            waiting matches Err(error) ==> error == Error::CoordinatorUnreachable,
    {
        let (message, cb_receiver) = Self::sync_request(target);
        Self::awaiting(post(&self.coordinator_sender, message), cb_receiver)
    }

    /// Tells the coordinator that the replica committed up to `version`:
    /// posts `commit_notice(version)`. The only failure is a closed mailbox.
    pub fn commit(&self, version: Version) -> (noted: Result<(), Error>)
        ensures
            noted matches Err(error) ==> error == Error::CoordinatorUnreachable,
    {
        Self::posted(post(&self.coordinator_sender, Self::commit_notice(version)))
    }

    /// Asks the coordinator for the recorded version: posts `state_query()`.
    /// The answer arrives on the channel that is handed back; `state` reads
    /// it. The only failure at this point is a closed mailbox.
    pub fn get_state(&self) -> (waiting: Result<Receiver<Version>, Error>)
        ensures
            waiting matches Err(error) ==> error == Error::CoordinatorUnreachable,
    {
        let (message, cb_receiver) = Self::state_query();
        Self::awaiting(post(&self.coordinator_sender, message), cb_receiver)
    }

    /// Reads what the mailbox said of a message.
    pub fn posted(posted: Result<(), CoordinatorMessage>) -> (noted: Result<(), Error>)
        ensures
            noted == Self::posted_spec(posted),
    {
        match posted {
            Ok(()) => Ok(()),
            Err(_) => Err(Error::CoordinatorUnreachable),
        }
    }

    /// What a caller that awaits an answer holds once its message was
    /// posted: the channel to wait on where the mailbox took the message,
    /// else the news that the coordinator is gone.
    pub fn awaiting<T>(posted: Result<(), CoordinatorMessage>, cb_receiver: Receiver<T>) -> (waiting: Result<
        Receiver<T>,
        Error,
    >)
        ensures
            waiting == (match posted {
                Ok(_) => Ok::<Receiver<T>, Error>(cb_receiver),
                Err(_) => Err::<Receiver<T>, Error>(Error::CoordinatorUnreachable),
            }),
    {
        match posted {
            Ok(()) => Ok(cb_receiver),
            Err(_) => Err(Error::CoordinatorUnreachable),
        }
    }

    /// Reads the answer to `sync_to`, as the wait on its channel gave it.
    pub fn sync_status(answer: Result<Result<bool, SyncFailure>, Canceled>) -> (status: Result<bool, Error>)
        ensures
            status == Self::sync_status_spec(answer),
    {
        match answer {
            Ok(Ok(status)) => Ok(status),
            Ok(Err(failure)) => Err(Error::SyncFailed(failure)),
            Err(_) => Err(Error::CoordinatorUnreachable),
        }
    }

    /// Reads the answer to `get_state`, as the wait on its channel gave it.
    pub fn state(answer: Result<Version, Canceled>) -> (version: Result<Version, Error>)
        ensures
            version == Self::state_spec(answer),
    {
        match answer {
            Ok(version) => Ok(version),
            Err(_) => Err(Error::CoordinatorUnreachable),
        }
    }
}

} // verus!
