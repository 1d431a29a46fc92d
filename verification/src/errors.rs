//! The errors of the Raft API and of its network and storage layers.

use anyerror::AnyError;
use std::collections::BTreeSet;
use std::time::Duration;
use vstd::prelude::*;
use crate::error_source::{any_error_from_message, any_error_of_message};
use crate::log_id::LogId;
use crate::membership::{BasicNode, Membership};
use crate::vote::Vote;

verus! {

/// The id of a segment of a snapshot being transferred.
#[derive(Debug, Clone, PartialEq, Eq, Default)]
pub struct SnapshotSegmentId {
    pub id: String,
    pub offset: u64,
}

/// A snapshot segment did not have the id that was expected.
#[derive(Debug, Clone, PartialEq, Eq)]
pub struct SnapshotMismatch {
    pub expect: SnapshotSegmentId,
    pub got: SnapshotSegmentId,
}

/// An error while installing a snapshot.
#[derive(Debug, Clone, PartialEq, Eq)]
pub enum InstallSnapshotError {
    SnapshotMismatch(SnapshotMismatch),
}

/// An error that can never occur.
pub type Infallible = core::convert::Infallible;

/// Marks an API error that never asks to forward to the leader: like `Infallible`,
/// it has no value.
pub type NoForward = core::convert::Infallible;

/// This node is not the leader; the request belongs with the leader, if one is known.
#[derive(Debug, Clone, PartialEq, Eq)]
pub struct ForwardToLeader {
    pub leader_id: Option<u64>,
    pub leader_node: Option<BasicNode>,
}

impl ForwardToLeader {
    /// Forward to a leader that is not known.
    pub fn empty() -> (r: Self)
        ensures
            r.leader_id.is_none(),
            r.leader_node.is_none(),
    {
        ForwardToLeader { leader_id: None, leader_node: None }
    }

    /// Forward to leader `leader_id`, reachable as `node`.
    pub fn new(leader_id: u64, node: BasicNode) -> (r: Self)
        ensures
            r.leader_id == Some(leader_id),
            r.leader_node == Some(node),
    {
        ForwardToLeader { leader_id: Some(leader_id), leader_node: Some(node) }
    }
}

/// A membership change is already in progress.
#[derive(Debug, Clone, PartialEq, Eq)]
pub struct InProgress {
    pub committed: Option<LogId>,
    pub membership_log_id: Option<LogId>,
}

/// The proposed membership would have no voter.
#[derive(Debug, Clone, Copy, PartialEq, Eq, Default)]
pub struct EmptyMembership {}

/// A node to promote is not a learner of the cluster.
#[derive(Debug, Clone, Copy, PartialEq, Eq)]
pub struct LearnerNotFound {
    pub node_id: u64,
}

/// A node is not in the membership.
#[derive(Debug, Clone, Copy, PartialEq, Eq)]
pub struct NodeNotFound {
    pub node_id: u64,
}

/// Too few nodes answered to form a quorum.
#[derive(Debug, Clone, PartialEq, Eq)]
pub struct QuorumNotEnough {
    pub cluster: String,
    pub got: BTreeSet<u64>,
}

/// Initializing is not allowed: the node already has a log or a vote.
#[derive(Debug, Clone, PartialEq, Eq)]
pub struct NotAllowed {
    pub last_log_id: Option<LogId>,
    pub vote: Vote,
}

/// This node is not a member of the initial membership.
#[derive(Debug, Clone, PartialEq, Eq)]
pub struct NotInMembers {
    pub node_id: u64,
    pub membership: Membership,
}

/// An error in a membership.
#[derive(Debug, Clone, PartialEq, Eq)]
pub enum MembershipError {
    EmptyMembership(EmptyMembership),
    NodeNotFound(NodeNotFound),
}

/// An error of a membership change request.
#[derive(Debug, Clone, PartialEq, Eq)]
pub enum ChangeMembershipError {
    InProgress(InProgress),
    EmptyMembership(EmptyMembership),
    LearnerNotFound(LearnerNotFound),
}

impl ChangeMembershipError {
    /// The membership change error a membership error amounts to: a node missing from
    /// the membership is a learner that was not added.
    pub fn from_membership_error(me: MembershipError) -> (r: Self)
        ensures
            r == match me {
                MembershipError::EmptyMembership(e) => ChangeMembershipError::EmptyMembership(e),
                MembershipError::NodeNotFound(e) => ChangeMembershipError::LearnerNotFound(
                    LearnerNotFound { node_id: e.node_id },
                ),
            },
    {
        match me {
            MembershipError::EmptyMembership(e) => ChangeMembershipError::EmptyMembership(e),
            MembershipError::NodeNotFound(e) => ChangeMembershipError::LearnerNotFound(
                LearnerNotFound { node_id: e.node_id },
            ),
        }
    }
}

/// An error of a client write request.
#[derive(Debug, Clone, PartialEq, Eq)]
pub enum ClientWriteError {
    ForwardToLeader(ForwardToLeader),
    ChangeMembershipError(ChangeMembershipError),
}

/// An error of initializing a pristine node.
#[derive(Debug, Clone, PartialEq, Eq)]
pub enum InitializeError {
    NotAllowed(NotAllowed),
    NotInMembers(NotInMembers),
}

/// An API error that may ask to forward the request to the leader.
pub trait TryAsRef {
    /// The request to forward, if this error is one.
    spec fn spec_forward(&self) -> Option<ForwardToLeader>;

    /// The request to forward, if this error is one.
    fn try_as_ref(&self) -> (r: Option<&ForwardToLeader>)
        ensures
            r.is_some() == self.spec_forward().is_some(),
            r matches Some(f) ==> *f == self.spec_forward().unwrap(),
    ;
}

impl TryAsRef for ClientWriteError {
    open spec fn spec_forward(&self) -> Option<ForwardToLeader> {
        match self {
            ClientWriteError::ForwardToLeader(f) => Some(*f),
            _ => None,
        }
    }

    fn try_as_ref(&self) -> (r: Option<&ForwardToLeader>) {
        match self {
            ClientWriteError::ForwardToLeader(f) => Some(f),
            _ => None,
        }
    }
}

impl TryAsRef for InitializeError {
    open spec fn spec_forward(&self) -> Option<ForwardToLeader> {
        None
    }

    fn try_as_ref(&self) -> (r: Option<&ForwardToLeader>) {
        None
    }
}

impl TryAsRef for Infallible {
    open spec fn spec_forward(&self) -> Option<ForwardToLeader> {
        None
    }

    fn try_as_ref(&self) -> (r: Option<&ForwardToLeader>) {
        None
    }
}

/// What a storage error was about.
#[derive(Debug, Clone, PartialEq, Eq)]
pub enum ErrorSubject {
    Store,
    Vote,
    Logs,
    Log(LogId),
    LogIndex(u64),
    Apply(LogId),
    StateMachine,
    Snapshot(Option<SnapshotSignature>),
    /// Not about anything in particular.
    Unspecified,
}

/// What was being done when a storage error occurred.
#[derive(Debug, Clone, Copy, PartialEq, Eq)]
pub enum ErrorVerb {
    Read,
    Write,
    Seek,
    Delete,
}

/// The identity of a snapshot: what it covers and its id.
#[derive(Debug, Clone, PartialEq, Eq, Default)]
pub struct SnapshotSignature {
    pub last_log_id: Option<LogId>,
    pub last_membership_log_id: Option<Box<LogId>>,
    pub snapshot_id: String,
}

/// An error of the storage: what it was about, what was being done, and the
/// underlying error.
#[derive(Debug, Clone, PartialEq, Eq)]
pub struct StorageError {
    pub subject: ErrorSubject,
    pub verb: ErrorVerb,
    pub source: AnyError,
}

impl StorageError {
    /// A storage error about `subject` while doing `verb`, caused by `source`.
    pub fn new(subject: ErrorSubject, verb: ErrorVerb, source: AnyError) -> (r: Self)
        ensures
            r.subject == subject,
            r.verb == verb,
            r.source == source,
    {
        StorageError { subject, verb, source }
    }

    /// Failed to read the snapshot `signature`, or the current snapshot.
    pub fn read_snapshot(signature: Option<SnapshotSignature>, source: AnyError) -> (r: Self)
        ensures
            r.subject == ErrorSubject::Snapshot(signature),
            r.verb == ErrorVerb::Read,
            r.source == source,
    {
        StorageError { subject: ErrorSubject::Snapshot(signature), verb: ErrorVerb::Read, source }
    }
}

/// A fatal error: the node can not go on.
#[derive(Debug, Clone, PartialEq, Eq)]
pub enum Fatal {
    StorageError(StorageError),
    Panicked,
    Stopped,
}

/// An error of the Raft API: either the API's own error or a fatal one.
#[derive(Debug, Clone, PartialEq, Eq)]
pub enum RaftError<E = Infallible> {
    APIError(E),
    Fatal(Fatal),
}

impl<E: TryAsRef> RaftError<E> {
    /// The request to forward to the leader, if this is an API error that asks for it.
    pub fn forward_to_leader(&self) -> (r: Option<&ForwardToLeader>)
        ensures
            r.is_some() == (self matches RaftError::APIError(e) && e.spec_forward().is_some()),
            r matches Some(f) ==> self matches RaftError::APIError(e) && *f
                == e.spec_forward().unwrap(),
    {
        match self {
            RaftError::APIError(e) => e.try_as_ref(),
            RaftError::Fatal(_) => None,
        }
    }
}

/// An error that occurred on a remote node.
#[derive(Debug, Clone, PartialEq, Eq)]
pub struct RemoteError<T> {
    pub target: u64,
    pub target_node: Option<BasicNode>,
    pub source: T,
}

impl<T> RemoteError<T> {
    /// An error `e` that occurred on node `target`.
    pub fn new(target: u64, e: T) -> (r: Self)
        ensures
            r.target == target,
            r.target_node.is_none(),
            r.source == e,
    {
        RemoteError { target, target_node: None, source: e }
    }

    /// An error `e` that occurred on node `target`, reachable as `node`.
    pub fn new_with_node(target: u64, node: BasicNode, e: T) -> (r: Self)
        ensures
            r.target == target,
            r.target_node == Some(node),
            r.source == e,
    {
        RemoteError { target, target_node: Some(node), source: e }
    }
}

impl RemoteError<Fatal> {
    /// The same remote error, as a fatal Raft error.
    pub fn into_raft_error<E>(self) -> (r: RemoteError<RaftError<E>>)
        ensures
            r.target == self.target,
            r.target_node == self.target_node,
            r.source == RaftError::<E>::Fatal(self.source),
    {
        RemoteError { target: self.target, target_node: self.target_node, source: RaftError::Fatal(self.source) }
    }
}

/// A temporary network error: the request is retried at once.
#[derive(Debug, Clone, PartialEq, Eq)]
pub struct NetworkError {
    pub source: AnyError,
}

impl NetworkError {
    /// A network error caused by the I/O error `e`.
    ///
    /// The source carries `e`'s type name and description, which `anyerror` builds
    /// from the platform's text for the error; nothing of it is stated here.
    pub fn new(e: &std::io::Error) -> (r: Self) {
        NetworkError { source: crate::error_source::any_error_of_io(e) }
    }

    /// A network error described by `msg`.
    pub fn from_string(msg: &str) -> (r: Self)
        ensures
            r.source == any_error_from_message(msg@),
    {
        NetworkError { source: any_error_of_message(msg) }
    }
}

/// The node can not be reached: retries back off first.
#[derive(Debug, Clone, PartialEq, Eq)]
pub struct Unreachable {
    pub source: AnyError,
}

impl Unreachable {
    /// An unreachable node, as told by the I/O error `e`.
    ///
    /// The source carries `e`'s type name and description, which `anyerror` builds
    /// from the platform's text for the error; nothing of it is stated here.
    pub fn new(e: &std::io::Error) -> (r: Self) {
        Unreachable { source: crate::error_source::any_error_of_io(e) }
    }

    /// An unreachable node, described by `msg`.
    pub fn from_string(msg: &str) -> (r: Self)
        ensures
            r.source == any_error_from_message(msg@),
    {
        Unreachable { source: any_error_of_message(msg) }
    }
}

/// The kind of a Raft RPC.
#[derive(Debug, Clone, Copy, PartialEq, Eq)]
pub enum RPCTypes {
    Vote,
    AppendEntries,
    InstallSnapshot,
    TransferLeader,
}

/// An RPC that timed out.
#[derive(Debug, Clone, PartialEq, Eq)]
pub struct Timeout {
    pub action: RPCTypes,
    pub id: u64,
    pub target: u64,
    pub timeout: Duration,
}

/// An error of a remote Raft RPC.
#[derive(Debug, Clone, PartialEq, Eq)]
pub enum RPCError<E = Infallible> {
    Timeout(Timeout),
    Unreachable(Unreachable),
    Network(NetworkError),
    RemoteError(RemoteError<E>),
}

/// How long to back off after an RPC error: transient errors rank low, an unreachable
/// node or a remote error high.
pub open spec fn backoff_rank_of<E>(e: RPCError<E>) -> u64 {
    match e {
        RPCError::Timeout(_) => 2,
        RPCError::Unreachable(_) => 100,
        RPCError::Network(_) => 2,
        RPCError::RemoteError(_) => 100,
    }
}

impl<E> RPCError<E> {
    /// The severity of this error for backing off: the higher, the longer.
    pub fn backoff_rank(&self) -> (r: u64)
        ensures
            r == backoff_rank_of(*self),
    {
        match self {
            RPCError::Timeout(_) => 2,
            RPCError::Unreachable(_) => 100,
            RPCError::Network(_) => 2,
            RPCError::RemoteError(_) => 100,
        }
    }
}

impl<E: TryAsRef> RPCError<RaftError<E>> {
    /// The request to forward to the leader, if the remote node asked for it.
    pub fn forward_to_leader(&self) -> (r: Option<&ForwardToLeader>)
        ensures
            r.is_some() == (self matches RPCError::RemoteError(re) && re.source matches RaftError::APIError(
                e,
            ) && e.spec_forward().is_some()),
            r matches Some(f) ==> (self matches RPCError::RemoteError(re)
                && re.source matches RaftError::APIError(e) && *f == e.spec_forward().unwrap()),
    {
        match self {
            RPCError::Timeout(_) => None,
            RPCError::Unreachable(_) => None,
            RPCError::Network(_) => None,
            RPCError::RemoteError(remote_err) => remote_err.source.forward_to_leader(),
        }
    }
}

impl RPCError<Infallible> {
    /// The same error, typed as an RPC error whose remote errors are Raft errors.
    ///
    /// An RPC error without remote errors is never a remote error.
    pub fn with_raft_error<E>(self) -> (r: RPCError<RaftError<E>>)
        requires
            !(self is RemoteError),
        ensures
            match (self, r) {
                (RPCError::Timeout(a), RPCError::Timeout(b)) => a == b,
                (RPCError::Unreachable(a), RPCError::Unreachable(b)) => a == b,
                (RPCError::Network(a), RPCError::Network(b)) => a == b,
                _ => false,
            },
    {
        match self {
            RPCError::Timeout(e) => RPCError::Timeout(e),
            RPCError::Unreachable(e) => RPCError::Unreachable(e),
            RPCError::Network(e) => RPCError::Network(e),
            RPCError::RemoteError(_) => {
                assert(false);
                RPCError::Network(NetworkError::from_string(""))
            },
        }
    }
}

/// An error that is retried: a timeout or a network error.
#[derive(Debug, Clone, PartialEq, Eq)]
pub enum RetryableError {
    Timeout(Timeout),
    Network(NetworkError),
}

/// A snapshot could not be sent.
#[derive(Debug, Clone, PartialEq, Eq)]
pub enum SendSnapshotError {
    NodeNotFound(NodeNotFound),
}

/// A request was rejected by a greater vote.
#[derive(Debug, Clone, Copy, PartialEq, Eq)]
pub struct RejectVote {
    pub higher: Vote,
}

/// The log id a follower expected does not match its log.
#[derive(Debug, Clone, Copy, PartialEq, Eq)]
pub struct ConflictingLogId {
    pub expect: LogId,
    pub local: Option<LogId>,
}

/// Why a follower rejected appending entries.
#[derive(Debug, Clone, Copy, PartialEq, Eq)]
pub enum RejectAppendEntries {
    RejectVote(RejectVote),
    ConflictingLogId(ConflictingLogId),
}

/// The error of a stream of appends: a conflict at a log id, or a greater vote.
#[derive(Debug, Clone, Copy, PartialEq, Eq)]
pub enum StreamAppendError {
    Conflict(LogId),
    HigherVote(Vote),
}

impl RejectAppendEntries {
    /// The rejection by a greater vote.
    pub fn from_reject_vote(r: RejectVote) -> (o: Self)
        ensures
            o == RejectAppendEntries::RejectVote(r),
    {
        RejectAppendEntries::RejectVote(r)
    }

    /// The stream error this rejection amounts to.
    pub fn into_stream_append_error(self) -> (r: StreamAppendError)
        ensures
            r == match self {
                RejectAppendEntries::RejectVote(v) => StreamAppendError::HigherVote(v.higher),
                RejectAppendEntries::ConflictingLogId(c) => StreamAppendError::Conflict(c.expect),
            },
    {
        match self {
            RejectAppendEntries::RejectVote(r) => StreamAppendError::HigherVote(r.higher),
            RejectAppendEntries::ConflictingLogId(c) => StreamAppendError::Conflict(c.expect),
        }
    }

    /// Separates a rejection by a vote, the error, from a log conflict, the residual.
    pub fn peel(self) -> (r: Result<ConflictingLogId, RejectVote>)
        ensures
            r == match self {
                RejectAppendEntries::RejectVote(e) => Err::<ConflictingLogId, RejectVote>(e),
                RejectAppendEntries::ConflictingLogId(e) => Ok(e),
            },
    {
        match self {
            RejectAppendEntries::RejectVote(e) => Err(e),
            RejectAppendEntries::ConflictingLogId(e) => Ok(e),
        }
    }
}

/// A vote greater than the sender's was seen.
#[derive(Debug, Clone, Copy, PartialEq, Eq)]
pub struct HigherVote {
    pub higher: Vote,
    pub sender_vote: Vote,
}

/// Replication stopped, for the given reason.
#[derive(Debug, Clone, PartialEq, Eq)]
pub struct ReplicationClosed {
    pub reason: AnyError,
}

impl ReplicationClosed {
    /// Replication stopped because of `reason`.
    pub fn new(reason: &str) -> (r: Self)
        ensures
            r.reason == any_error_from_message(reason@),
    {
        ReplicationClosed { reason: any_error_of_message(reason) }
    }
}

/// An error of replication.
#[derive(Debug, Clone, PartialEq, Eq)]
pub enum ReplicationError {
    HigherVote(HigherVote),
    Closed(ReplicationClosed),
    StorageError(StorageError),
    RPCError(RPCError),
}

/// A result in the nested form, `Result<Result<T, E>, Fatal>`, in the flat form.
pub fn into_raft_result<T, E>(r: Result<Result<T, E>, Fatal>) -> (o: Result<T, RaftError<E>>)
    ensures
        o == match r {
            Ok(Ok(t)) => Ok::<T, RaftError<E>>(t),
            Ok(Err(e)) => Err(RaftError::APIError(e)),
            Err(f) => Err(RaftError::Fatal(f)),
        },
{
    match r {
        Ok(Ok(t)) => Ok(t),
        Ok(Err(e)) => Err(RaftError::APIError(e)),
        Err(f) => Err(RaftError::Fatal(f)),
    }
}

/// A result that can only fail fatally, as a Raft result.
pub fn fatal_into_raft_result<T>(r: Result<T, Fatal>) -> (o: Result<T, RaftError<Infallible>>)
    ensures
        o == match r {
            Ok(t) => Ok::<T, RaftError<Infallible>>(t),
            Err(f) => Err(RaftError::Fatal(f)),
        },
{
    match r {
        Ok(t) => Ok(t),
        Err(f) => Err(RaftError::Fatal(f)),
    }
}

} // verus!
