//! The record of how far this replica is synchronised, as a state machine:
//! one version, and the events that may move it.

use vstd::prelude::*;
use crate::types::Version;

verus! {

/// Why a catch-up did not reach its target.
#[derive(Clone, Copy, Debug, PartialEq, Eq, Structural)]
pub enum SyncFailure {
    /// No peer could serve the missing part of the ledger.
    PeerUnavailable,
    /// What a peer served did not match the certified target.
    DataMismatch,
}

/// How a catch-up ended.
#[derive(Clone, Copy, Debug, PartialEq, Eq, Structural)]
pub enum CatchUpOutcome {
    /// The replica now holds the ledger up to the target.
    Synced,
    /// The catch-up failed for a reason that the requester is told.
    Failed(SyncFailure),
    /// The catch-up was given up; the requester is left without an answer.
    Abandoned,
    /// The catch-up met an error after which the coordinator cannot go on.
    Fatal,
}

/// An event in the life of the coordinator.
#[derive(Clone, Copy, Debug, PartialEq, Eq, Structural)]
pub enum Event {
    /// A caller asks to be brought to `target`.
    SyncRequested { target: Version },
    /// The replica committed up to `version`.
    Committed { version: Version },
    /// A caller asks for the recorded version.
    StateQueried,
    /// A catch-up towards `target` ended with `outcome`.
    CatchUpFinished { target: Version, outcome: CatchUpOutcome },
}

/// What the coordinator does in answer to an event.
#[derive(Clone, Copy, Debug, PartialEq, Eq, Structural)]
pub enum Reaction {
    /// Answer the request for a sync with this status: `true` where a sync
    /// ran, `false` where the replica was already at the target.
    AnswerSync(bool),
    /// Answer the request for a sync with a failure.
    AnswerSyncFailed(SyncFailure),
    /// Drop the request for a sync without an answer.
    DropSyncRequest,
    /// Run a catch-up to this version, then report how it ended.
    CatchUp { target: Version },
    /// Drop the request for a sync without an answer and stop for good.
    Terminate,
    /// Answer the query with the recorded version.
    AnswerState(Version),
    /// Nothing to tell anyone.
    Nothing,
}

/// The later of two versions.
pub open spec fn later(current: Version, reached: Version) -> Version {
    if reached > current {
        reached
    } else {
        current
    }
}

/// The recorded version after one event.
pub open spec fn version_after(current: Version, event: Event) -> Version {
    match event {
        Event::Committed { version } => later(current, version),
        Event::CatchUpFinished { target, outcome: CatchUpOutcome::Synced } => later(current, target),
        _ => current,
    }
}

/// What the coordinator does in answer to one event, given the version that
/// it had recorded when the event arrived.
pub open spec fn reaction_to(current: Version, event: Event) -> Reaction {
    match event {
        Event::SyncRequested { target } => if current >= target {
            Reaction::AnswerSync(false)
        } else {
            Reaction::CatchUp { target }
        },
        Event::Committed { version } => Reaction::Nothing,
        Event::StateQueried => Reaction::AnswerState(current),
        Event::CatchUpFinished { target, outcome } => match outcome {
            CatchUpOutcome::Synced => Reaction::AnswerSync(true),
            CatchUpOutcome::Failed(failure) => Reaction::AnswerSyncFailed(failure),
            CatchUpOutcome::Abandoned => Reaction::DropSyncRequest,
            CatchUpOutcome::Fatal => Reaction::Terminate,
        },
    }
}

/// The recorded version after a run of events, taken in order.
pub open spec fn version_after_all(start: Version, events: Seq<Event>) -> Version
    decreases events.len(),
{
    if events.len() == 0 {
        start
    } else {
        version_after(version_after_all(start, events.drop_last()), events.last())
    }
}

/// The synced version: a single number that only the coordinator changes, and
/// that never goes back.
#[derive(Clone, Copy, Debug, PartialEq, Eq, Structural)]
pub struct SyncedVersion {
    pub version: Version,
}

impl SyncedVersion {
    pub fn new(version: Version) -> (state: SyncedVersion)
        ensures
            state.version == version,
    {
        SyncedVersion { version }
    }

    pub fn version(&self) -> (version: Version)
        ensures
            version == self.version,
    {
        self.version
    }

    /// Takes one event: moves the recorded version as the event demands and
    /// says what is to be done about it.
    pub fn step(&mut self, event: Event) -> (reaction: Reaction)
        ensures
            final(self).version == version_after(old(self).version, event),
            reaction == reaction_to(old(self).version, event),
            final(self).version >= old(self).version,
    {
        match event {
            Event::SyncRequested { target } => {
                if self.version >= target {
                    Reaction::AnswerSync(false)
                } else {
                    Reaction::CatchUp { target }
                }
            },
            Event::Committed { version } => {
                if version > self.version {
                    self.version = version;
                }
                Reaction::Nothing
            },
            Event::StateQueried => Reaction::AnswerState(self.version),
            Event::CatchUpFinished { target, outcome } => {
                match outcome {
                    CatchUpOutcome::Synced => {
                        if target > self.version {
                            self.version = target;
                        }
                        Reaction::AnswerSync(true)
                    },
                    CatchUpOutcome::Failed(failure) => Reaction::AnswerSyncFailed(failure),
                    CatchUpOutcome::Abandoned => Reaction::DropSyncRequest,
                    CatchUpOutcome::Fatal => Reaction::Terminate,
                }
            },
        }
    }
}

/// No event takes the recorded version back.
pub proof fn lemma_version_never_regresses(start: Version, events: Seq<Event>)
    ensures
        version_after_all(start, events) >= start,
    decreases events.len(),
{
    if events.len() > 0 {
        lemma_version_never_regresses(start, events.drop_last());
    }
}

/// Once the replica has committed up to `version`, the recorded version stays
/// at or above it, whatever follows.
pub proof fn lemma_commit_is_kept(start: Version, version: Version, rest: Seq<Event>)
    ensures
        version_after_all(start, seq![Event::Committed { version }] + rest) >= version,
    decreases rest.len(),
{
    let first = seq![Event::Committed { version }];
    if rest.len() == 0 {
        assert(first + rest =~= first);
        assert(first.drop_last() =~= Seq::<Event>::empty());
        assert(version_after_all(start, first.drop_last()) == start);
    } else {
        lemma_commit_is_kept(start, version, rest.drop_last());
        assert((first + rest).drop_last() =~= first + rest.drop_last());
        assert((first + rest).last() == rest.last());
    }
}

/// A request for a sync to a target that the recorded version has already
/// reached is answered with `false` and leaves the recorded version as it
/// was, after any run of earlier events.
pub proof fn lemma_sync_to_reached_target_is_noop(start: Version, earlier: Seq<Event>, target: Version)
    requires
        version_after_all(start, earlier) >= target,
    ensures
        reaction_to(version_after_all(start, earlier), Event::SyncRequested { target })
            == Reaction::AnswerSync(false),
        version_after_all(start, earlier.push(Event::SyncRequested { target })) == version_after_all(
            start,
            earlier,
        ),
{
    let all = earlier.push(Event::SyncRequested { target });
    assert(all.drop_last() =~= earlier);
    assert(all.last() == Event::SyncRequested { target });
}

/// Two notices of a commit, the second for an earlier version than the
/// first: the recorded version ends at the later of where it stood and the
/// first, and so at the first where it stood no higher. The second notice
/// changes nothing.
pub proof fn lemma_stale_commit_is_ignored(start: Version, first: Version, second: Version)
    requires
        second < first,
    ensures
        version_after_all(
            start,
            seq![Event::Committed { version: first }, Event::Committed { version: second }],
        ) == later(start, first),
        start <= first ==> version_after_all(
            start,
            seq![Event::Committed { version: first }, Event::Committed { version: second }],
        ) == first,
{
    let one = seq![Event::Committed { version: first }];
    let both = seq![Event::Committed { version: first }, Event::Committed { version: second }];
    assert(both.drop_last() =~= one);
    assert(one.drop_last() =~= Seq::<Event>::empty());
    assert(version_after_all(start, one.drop_last()) == start);
    assert(version_after_all(start, one) == later(start, first));
}

} // verus!
