//! The coordinator: the single owner of the synced version. It takes the
//! messages of its mailbox one at a time, moves the recorded version as
//! `progress` prescribes, and answers on the channel that came with the
//! message.

use vstd::prelude::*;
use futures::channel::oneshot::Sender;
use crate::channel::CoordinatorMessage;
use crate::progress::{
    reaction_to, version_after, CatchUpOutcome, Event, Reaction, SyncFailure, SyncedVersion,
};
use crate::types::{LedgerInfoWithSignatures, Version};

verus! {

impl CoordinatorMessage {
    /// The event that this message reports.
    pub open spec fn event(&self) -> Event {
        match self {
            CoordinatorMessage::Requested(target, _) => Event::SyncRequested {
                target: target.ledger_info.version,
            },
            CoordinatorMessage::Commit(version) => Event::Committed { version: *version },
            CoordinatorMessage::GetState(_) => Event::StateQueried,
        }
    }
}

/// A request for a sync that waits for its catch-up to end.
pub struct PendingSync {
    pub target: LedgerInfoWithSignatures,
    pub reply: Sender<Result<bool, SyncFailure>>,
}

impl PendingSync {
    /// The event that the end of this catch-up is.
    pub open spec fn finished(&self, outcome: CatchUpOutcome) -> Event {
        Event::CatchUpFinished { target: self.target.ledger_info.version, outcome }
    }
}

/// What became of one message or of one catch-up.
pub struct Handled {
    /// What the coordinator decided.
    pub reaction: Reaction,
    /// The catch-up to run, where the decision is to run one.
    pub pending: Option<PendingSync>,
    /// Whether an answer was given that nobody was waiting for any more.
    pub unheard: bool,
}

/// The coordinator's state.
pub struct SyncCoordinator {
    state: SyncedVersion,
}

impl SyncCoordinator {
    /// The recorded version.
    pub closed spec fn version(&self) -> Version {
        self.state.version
    }

    /// A coordinator that has recorded `initial`.
    pub fn new(initial: Version) -> (coordinator: SyncCoordinator)
        ensures
            coordinator.version() == initial,
    {
        SyncCoordinator { state: SyncedVersion::new(initial) }
    }

    /// The recorded version.
    pub fn synced_version(&self) -> (version: Version)
        ensures
            version == self.version(),
    {
        self.state.version()
    }

    /// Takes one message from the mailbox. A request for a sync is answered
    /// with `false` at once where the replica has reached the target; else it
    /// is handed back as a catch-up to run. A notice of a commit moves the
    /// recorded version forward, never back. A query is answered with the
    /// recorded version.
    pub fn process(&mut self, message: CoordinatorMessage) -> (handled: Handled)
        ensures
            final(self).version() == version_after(old(self).version(), message.event()),
            final(self).version() >= old(self).version(),
            handled.reaction == reaction_to(old(self).version(), message.event()),
            handled.pending is Some <==> handled.reaction is CatchUp,
            handled.pending matches Some(pending) ==> message == CoordinatorMessage::Requested(
                pending.target,
                pending.reply,
            ),
            handled.reaction is Nothing ==> !handled.unheard,
            handled.reaction is CatchUp ==> !handled.unheard,
    {
        match message {
            CoordinatorMessage::Requested(target, reply) => {
                let reaction = self.state.step(
                    Event::SyncRequested { target: target.ledger_info().version() },
                );
                match reaction {
                    Reaction::CatchUp { target: _ } => Handled {
                        reaction,
                        pending: Some(PendingSync { target, reply }),
                        unheard: false,
                    },
                    _ => {
                        let sent = reply.send(Ok(false));
                        Handled { reaction, pending: None, unheard: sent.is_err() }
                    },
                }
            },
            CoordinatorMessage::Commit(version) => {
                let reaction = self.state.step(Event::Committed { version });
                Handled { reaction, pending: None, unheard: false }
            },
            CoordinatorMessage::GetState(reply) => {
                let reaction = self.state.step(Event::StateQueried);
                let sent = reply.send(self.state.version());
                Handled { reaction, pending: None, unheard: sent.is_err() }
            },
        }
    }

    /// Takes the end of a catch-up. Where it reached its target the recorded
    /// version moves up to the target, unless a commit has taken it further
    /// meanwhile, and the requester is answered with `true`. Where it failed
    /// the requester is told why, and where it was given up the requester's
    /// channel is dropped; the recorded version stays, and the coordinator
    /// goes on. Only after a fatal error is the coordinator to be stopped:
    /// the requester's channel is dropped then too.
    pub fn finish_catch_up(&mut self, pending: PendingSync, outcome: CatchUpOutcome) -> (handled: Handled)
        ensures
            final(self).version() == version_after(old(self).version(), pending.finished(outcome)),
            final(self).version() >= old(self).version(),
            handled.reaction == reaction_to(old(self).version(), pending.finished(outcome)),
            handled.pending is None,
            handled.reaction is DropSyncRequest || handled.reaction is Terminate
                ==> !handled.unheard,
    {
        let PendingSync { target, reply } = pending;
        let reaction = self.state.step(
            Event::CatchUpFinished { target: target.ledger_info().version(), outcome },
        );
        match reaction {
            Reaction::AnswerSync(status) => {
                let sent = reply.send(Ok(status));
                Handled { reaction, pending: None, unheard: sent.is_err() }
            },
            Reaction::AnswerSyncFailed(failure) => {
                let sent = reply.send(Err(failure));
                Handled { reaction, pending: None, unheard: sent.is_err() }
            },
            _ => Handled { reaction, pending: None, unheard: false },
        }
    }
}

} // verus!
