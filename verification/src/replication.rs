//! Identifiers of log I/O and replication sessions, replication requests, and the
//! decisions of a snapshot transfer.

use std::cmp::Ordering;
use vstd::prelude::*;
use crate::error_source::{any_error_from_message, any_error_of_message};
use crate::errors::{ErrorSubject, ErrorVerb, HigherVote, RPCError, ReplicationError, StorageError};
use crate::log_id::{lemma_log_id_cmp_antisymmetric, opt_log_id_cmp, opt_log_id_compare, LogId, LogIdRange};
use crate::storage::Snapshot;
use crate::vote::{lemma_leader_id_cmp_antisymmetric, leader_id_cmp, reverse_ordering, vote_cmp, CommittedVote, LeaderId, Vote};

verus! {

/// The id of a log append: the leader that performed it and the last log id flushed.
///
/// The same log id may be truncated and appended again by another leader; the leader
/// part keeps such ids apart.
#[derive(Debug, Clone, Copy, PartialEq, Eq)]
pub struct LogIOId {
    pub committed_vote: CommittedVote,
    pub log_id: Option<LogId>,
}

/// The ordering of log append ids: an append by a newer leader is greater; appends
/// by the same leader are ordered by their last log id.
pub open spec fn log_io_id_cmp(a: LogIOId, b: LogIOId) -> Option<Ordering> {
    match leader_id_cmp(a.committed_vote.leader_id, b.committed_vote.leader_id) {
        Some(Ordering::Equal) => Some(opt_log_id_cmp(a.log_id, b.log_id)),
        other => other,
    }
}

/// Law: an append by a newer leader is greater even when it wrote fewer or
/// truncated entries, so append ids never go back when a leader changes.
pub proof fn lemma_newer_leader_io_greater(a: LogIOId, b: LogIOId)
    requires
        leader_id_cmp(a.committed_vote.leader_id, b.committed_vote.leader_id) == Some(Ordering::Less),
    ensures
        log_io_id_cmp(a, b) == Some(Ordering::Less),
        log_io_id_cmp(b, a) == Some(Ordering::Greater),
{
    lemma_leader_id_cmp_antisymmetric(a.committed_vote.leader_id, b.committed_vote.leader_id);
}

/// Law: comparing two append ids the other way round gives the reverse ordering, so
/// an append by a newer leader is greater from either side, and appends by the same
/// leader compare as their last log ids, from either side.
pub proof fn lemma_log_io_id_cmp_antisymmetric(a: LogIOId, b: LogIOId)
    ensures
        log_io_id_cmp(b, a) == reverse_ordering(log_io_id_cmp(a, b)),
        leader_id_cmp(a.committed_vote.leader_id, b.committed_vote.leader_id) == Some(Ordering::Greater)
            ==> log_io_id_cmp(a, b) == Some(Ordering::Greater),
{
    lemma_leader_id_cmp_antisymmetric(a.committed_vote.leader_id, b.committed_vote.leader_id);
    lemma_log_id_cmp_antisymmetric(a.log_id, b.log_id);
}

/// Law: the committed votes of two append ids compare as their leader ids do.
pub proof fn lemma_committed_votes_compare_by_leader(a: CommittedVote, b: CommittedVote)
    ensures
        vote_cmp(a.into_vote_spec(), b.into_vote_spec()) == leader_id_cmp(a.leader_id, b.leader_id),
{
}

/// The id of an I/O operation.
#[derive(Debug, Clone, Copy, PartialEq, Eq)]
pub enum IOId {
    Log(LogIOId),
}

impl LogIOId {
    /// The append of up to `log_id` by the leader of `committed_vote`.
    pub fn new(committed_vote: CommittedVote, log_id: Option<LogId>) -> (r: Self)
        ensures
            r.committed_vote == committed_vote,
            r.log_id == log_id,
    {
        LogIOId { committed_vote, log_id }
    }

    /// The vote of the leader that performed the append.
    pub fn committed_vote(&self) -> (r: &CommittedVote)
        ensures
            *r == self.committed_vote,
    {
        &self.committed_vote
    }

    /// A copy of the vote of the leader that performed the append.
    pub fn to_committed_vote(&self) -> (r: CommittedVote)
        ensures
            r == self.committed_vote,
    {
        self.committed_vote
    }

    /// The leader id that performed the append.
    pub fn leader_id(&self) -> (r: LeaderId)
        ensures
            r == self.committed_vote.leader_id,
    {
        self.committed_vote.leader_id()
    }

    /// The last log id of the append.
    pub fn last_log_id(&self) -> (r: Option<&LogId>)
        ensures
            r.is_some() == self.log_id.is_some(),
            r matches Some(l) ==> *l == self.log_id.unwrap(),
    {
        match &self.log_id {
            Some(l) => Some(l),
            None => None,
        }
    }

    /// Compares two append ids; `None` when their leaders are incomparable.
    pub fn cmp_io_id(&self, other: &LogIOId) -> (r: Option<Ordering>)
        ensures
            r == log_io_id_cmp(*self, *other),
            leader_id_cmp(self.committed_vote.leader_id, other.committed_vote.leader_id) == Some(
                Ordering::Greater,
            ) ==> r == Some(Ordering::Greater),
            leader_id_cmp(self.committed_vote.leader_id, other.committed_vote.leader_id) == Some(
                Ordering::Less,
            ) ==> r == Some(Ordering::Less),
    {
        match self.committed_vote.leader_id.cmp_leader_id(&other.committed_vote.leader_id) {
            Some(Ordering::Equal) => Some(opt_log_id_compare(&self.log_id, &other.log_id)),
            Some(Ordering::Less) => Some(Ordering::Less),
            Some(Ordering::Greater) => Some(Ordering::Greater),
            None => None,
        }
    }

    /// This append as an I/O id.
    pub fn to_io_id(&self) -> (r: IOId)
        ensures
            r == IOId::Log(*self),
    {
        IOId::Log(*self)
    }
}

/// A replication session: a leader replicating to the members of one membership.
///
/// A new session starts whenever the leader's vote or the membership changes.
#[derive(Debug, Clone, Copy, PartialEq, Eq)]
pub struct ReplicationSessionId {
    pub leader_vote: CommittedVote,
    pub membership_log_id: Option<LogId>,
}

impl ReplicationSessionId {
    /// The session of `vote` replicating the membership stored at `membership_log_id`.
    pub fn new(vote: CommittedVote, membership_log_id: Option<LogId>) -> (r: Self)
        ensures
            r.leader_vote == vote,
            r.membership_log_id == membership_log_id,
    {
        ReplicationSessionId { leader_vote: vote, membership_log_id }
    }
}

/// The id of a replication request in flight, matched with its response.
#[derive(Debug, Clone, Copy, PartialEq, Eq, Default)]
pub struct InflightId {
    pub id: u64,
}

impl InflightId {
    /// The in-flight id `id`.
    pub fn new(id: u64) -> (r: Self)
        ensures
            r.id == id,
    {
        InflightId { id }
    }
}

/// Which logs a replication request carries.
#[derive(Debug, Clone, Copy, PartialEq, Eq)]
pub enum Payload {
    /// The logs of a fixed range.
    LogIdRange { log_id_range: LogIdRange },
    /// The logs after `prev`, with no upper bound.
    LogsSince { prev: Option<LogId> },
}

/// A request to replicate logs.
#[derive(Debug, Clone, Copy, PartialEq, Eq)]
pub struct Replicate {
    pub inflight_id: InflightId,
    pub payload: Payload,
}

impl Replicate {
    /// The empty request: in-flight id 0, no logs.
    pub fn default() -> (r: Self)
        ensures
            r.inflight_id.id == 0,
            r.payload == (Payload::LogIdRange { log_id_range: LogIdRange { prev: None, last: None } }),
    {
        Replicate {
            inflight_id: InflightId::new(0),
            payload: Payload::LogIdRange { log_id_range: LogIdRange::new(None, None) },
        }
    }

    /// A request to replicate the logs of `log_id_range`.
    pub fn new_logs(log_id_range: LogIdRange, inflight_id: InflightId) -> (r: Self)
        ensures
            r.inflight_id == inflight_id,
            r.payload == (Payload::LogIdRange { log_id_range }),
    {
        Replicate { inflight_id, payload: Payload::LogIdRange { log_id_range } }
    }

    /// A request to replicate the logs after `prev`.
    pub fn new_logs_since(prev: Option<LogId>, inflight_id: InflightId) -> (r: Self)
        ensures
            r.inflight_id == inflight_id,
            r.payload == (Payload::LogsSince { prev }),
    {
        Replicate { inflight_id, payload: Payload::LogsSince { prev } }
    }
}

/// Accepts the answer to a snapshot transfer unless it carries a vote greater than the
/// sender's, which means a newer leader exists.
pub fn check_snapshot_response(resp_vote: Vote, sender_vote: Vote) -> (r: Result<(), HigherVote>)
    ensures
        r == if vote_cmp(resp_vote, sender_vote) == Some(Ordering::Greater) {
            Err(HigherVote { higher: resp_vote, sender_vote })
        } else {
            Ok::<(), HigherVote>(())
        },
{
    match resp_vote.cmp_vote(&sender_vote) {
        Some(Ordering::Greater) => Err(HigherVote { higher: resp_vote, sender_vote }),
        _ => Ok(()),
    }
}

/// The snapshot to send, or the storage error of a state machine that has none.
pub fn snapshot_to_send(snapshot: Option<Snapshot>) -> (r: Result<Snapshot, StorageError>)
    ensures
        snapshot.is_some() ==> r == Ok::<Snapshot, StorageError>(snapshot.unwrap()),
        snapshot.is_none() ==> (r matches Err(e) && e.subject == ErrorSubject::Snapshot(None)
            && e.verb == ErrorVerb::Read && e.source == any_error_from_message(
            "snapshot not found"@,
        )),
{
    match snapshot {
        Some(s) => Ok(s),
        None => Err(StorageError::read_snapshot(None, any_error_of_message("snapshot not found"))),
    }
}

/// What a snapshot transfer does after a failed send.
#[derive(Debug)]
pub enum SnapshotErrorAction {
    /// The transfer was canceled: stop.
    Stop,
    /// A greater vote was seen: tell the leader it is stale.
    NotifyHigherVote { target: u64, higher: Vote, leader_vote: CommittedVote },
    /// The storage failed: report it.
    NotifyStorageError(StorageError),
    /// The RPC failed: report it, and start backing off first when the target was
    /// unreachable and no backoff is running yet.
    NotifyProgressError { error: RPCError, start_backoff: bool },
}

/// Decides what a snapshot transfer to `target` for the leader of `leader_vote` does
/// after the send failed with `err`, given whether a backoff is already running.
pub fn on_snapshot_send_error(
    err: ReplicationError,
    target: u64,
    leader_vote: CommittedVote,
    backoff_running: bool,
) -> (r: SnapshotErrorAction)
    ensures
        match err {
            ReplicationError::Closed(_) => r is Stop,
            ReplicationError::HigherVote(h) => r == (SnapshotErrorAction::NotifyHigherVote {
                target,
                higher: h.higher,
                leader_vote,
            }),
            ReplicationError::StorageError(e) => r == SnapshotErrorAction::NotifyStorageError(e),
            ReplicationError::RPCError(e) => r == (SnapshotErrorAction::NotifyProgressError {
                error: e,
                start_backoff: e is Unreachable && !backoff_running,
            }),
        },
{
    match err {
        ReplicationError::Closed(_) => SnapshotErrorAction::Stop,
        ReplicationError::HigherVote(h) => SnapshotErrorAction::NotifyHigherVote {
            target,
            higher: h.higher,
            leader_vote,
        },
        ReplicationError::StorageError(e) => SnapshotErrorAction::NotifyStorageError(e),
        ReplicationError::RPCError(e) => {
            let start_backoff = match &e {
                RPCError::Unreachable(_) => !backoff_running,
                _ => false,
            };
            SnapshotErrorAction::NotifyProgressError { error: e, start_backoff }
        },
    }
}

/// Law: an answer that carries the sender's own vote, or any smaller one, is accepted.
pub proof fn lemma_own_vote_accepted(resp_vote: Vote, sender_vote: Vote)
    requires
        resp_vote == sender_vote || vote_cmp(resp_vote, sender_vote) == Some(Ordering::Less),
    ensures
        vote_cmp(resp_vote, sender_vote) != Some(Ordering::Greater),
{
}

} // verus!
