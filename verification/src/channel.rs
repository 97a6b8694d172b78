//! The channels between the callers and the coordinator: an unbounded,
//! ordered mailbox for messages, and a single-use channel for each answer.
//! Both come from the `futures` crate; what is stated of them here is taken on
//! trust from that crate.

use vstd::prelude::*;
use futures::channel::mpsc::{UnboundedReceiver, UnboundedSender};
use futures::channel::oneshot::{Canceled, Receiver, Sender};
use crate::progress::SyncFailure;
use crate::types::{LedgerInfoWithSignatures, Version};

verus! {

/// The sending side of an unbounded mailbox.
#[verifier::external_type_specification]
#[verifier::external_body]
#[verifier::reject_recursive_types(T)]
pub struct ExUnboundedSender<T>(UnboundedSender<T>);

/// The receiving side of an unbounded mailbox.
#[verifier::external_type_specification]
#[verifier::external_body]
#[verifier::reject_recursive_types(T)]
pub struct ExUnboundedReceiver<T>(UnboundedReceiver<T>);

/// The side of a single-use channel that gives the answer.
#[verifier::external_type_specification]
#[verifier::external_body]
#[verifier::reject_recursive_types(T)]
pub struct ExSender<T>(Sender<T>);

/// The side of a single-use channel that waits for the answer.
#[verifier::external_type_specification]
#[verifier::external_body]
#[verifier::reject_recursive_types(T)]
pub struct ExReceiver<T>(Receiver<T>);

/// What waiting on a single-use channel gives when the answering side went
/// away without an answer.
#[verifier::external_type_specification]
#[verifier::external_body]
pub struct ExCanceled(Canceled);

/// A message to the coordinator.
pub enum CoordinatorMessage {
    /// Bring the replica to the given certified state; the answer says
    /// whether a sync ran.
    Requested(LedgerInfoWithSignatures, Sender<Result<bool, SyncFailure>>),
    /// The replica committed up to this version.
    Commit(Version),
    /// Report the recorded version.
    GetState(Sender<Version>),
}

/// `futures::channel::mpsc::unbounded`: makes a mailbox and hands out its two
/// sides. Nothing is claimed of them.
pub assume_specification<T>[ futures::channel::mpsc::unbounded::<T> ]() -> (sides: (
    UnboundedSender<T>,
    UnboundedReceiver<T>,
));

/// `futures::channel::oneshot::channel`: makes a single-use channel and hands
/// out its two sides. Nothing is claimed of them.
pub assume_specification<T>[ futures::channel::oneshot::channel::<T> ]() -> (sides: (
    Sender<T>,
    Receiver<T>,
));

/// `futures::channel::oneshot::Sender::send`: gives the answer. Whether it
/// arrives depends on the waiting side; where it does not, the answer comes
/// back unchanged.
pub assume_specification<T>[ futures::channel::oneshot::Sender::<T>::send ](
    sender: Sender<T>,
    t: T,
) -> (sent: Result<(), T>)
    ensures
        sent matches Err(back) ==> back == t,
;

/// `Clone::clone` of `futures::channel::mpsc::UnboundedSender`: another
/// sending side of the same mailbox. By the crate's source the new handle
/// holds, field for field, what the given one holds: a counted pointer to the
/// one shared mailbox. That is all that is claimed: the two are the same
/// value. (The crate gives up only when a mailbox already has about as many
/// sending sides as a quarter of what a `usize` can count.)
pub assume_specification<T>[ <UnboundedSender<T> as Clone>::clone ](
    sender: &UnboundedSender<T>,
) -> (other: UnboundedSender<T>)
    ensures
        other == *sender,
;

/// `futures::channel::mpsc::UnboundedSender::unbounded_send`, followed by
/// `TrySendError::into_inner` where it fails: puts the message in the mailbox
/// without waiting. Whether that succeeds depends on the receiving side; where
/// it has closed the mailbox the message comes back unchanged. (The crate
/// gives up only when a mailbox already holds about as many messages as a
/// `usize` can count.)
#[verifier::external_body]
pub(crate) fn post(sender: &UnboundedSender<CoordinatorMessage>, message: CoordinatorMessage) -> (posted: Result<(), CoordinatorMessage>)
    ensures
        posted matches Err(back) ==> back == message,
{
    match sender.unbounded_send(message) {
        Ok(()) => Ok(()),
        Err(refused) => Err(refused.into_inner()),
    }
}

} // verus!
