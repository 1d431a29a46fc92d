//! The decisions of a node around the Raft core: which id it takes, where a write
//! goes when this node is not the leader, when a learner is promoted, how a join
//! request is answered and retried, and how RPC failures are classified.

use std::collections::BTreeMap;
use vstd::prelude::*;
use crate::errors::{
    ClientWriteError, InitializeError, InstallSnapshotError, RPCError, RaftError, RemoteError,
};
use crate::log_id::LogId;
use crate::membership::{BasicNode, Membership};

verus! {

broadcast use vstd::std_specs::btree::group_btree_axioms, vstd::laws_cmp::group_laws_cmp;

/// The id of the node that founds a cluster.
pub const FOUNDER_NODE_ID: u64 = 0;

/// How many times a node tries to join before it gives up.
pub const JOIN_ATTEMPTS: usize = 20;

/// Where a starting node gets its id from.
#[derive(Debug, PartialEq, Eq)]
pub enum NodeIdSource {
    /// It restarts with the id it persisted.
    Persisted(u64),
    /// It asks the cluster of this seed address for one.
    Join(String),
    /// It founds a new cluster, as node 0.
    Found,
}

/// Chooses where a starting node's id comes from: the persisted id if there is one,
/// else the seed's cluster if a seed is given, else a new cluster.
pub fn choose_node_id(persisted: Option<u64>, seed_addr: Option<String>) -> (r: NodeIdSource)
    ensures
        r == match persisted {
            Some(id) => NodeIdSource::Persisted(id),
            None => match seed_addr {
                Some(s) => NodeIdSource::Join(s),
                None => NodeIdSource::Found,
            },
        },
{
    match persisted {
        Some(id) => NodeIdSource::Persisted(id),
        None => match seed_addr {
            Some(s) => NodeIdSource::Join(s),
            None => NodeIdSource::Found,
        },
    }
}

/// Whether a node with id `node_id` initializes the cluster with itself as the only
/// member: only the founder does.
pub fn should_initialize(node_id: u64) -> (r: bool)
    ensures
        r == (node_id == FOUNDER_NODE_ID),
{
    node_id == FOUNDER_NODE_ID
}

/// The members the founder initializes the cluster with: itself alone, reachable at
/// `addr`.
pub fn founder_members(node_id: u64, addr: String) -> (r: BTreeMap<u64, BasicNode>)
    ensures
        r@.dom() == set![node_id],
        r@[node_id].addr@ == addr@,
{
    let mut m: BTreeMap<u64, BasicNode> = BTreeMap::new();
    m.insert(node_id, BasicNode::new(addr));
    assert(m@.dom() =~= set![node_id]);
    m
}

/// Whether the founder can run after initializing: initializing succeeded, or it was
/// refused because the node already has state, as on a restart.
pub fn initialize_outcome_ok(r: &Result<(), RaftError<InitializeError>>) -> (ok: bool)
    ensures
        ok == match r {
            Ok(_) => true,
            Err(RaftError::APIError(InitializeError::NotAllowed(_))) => true,
            _ => false,
        },
{
    match r {
        Ok(_) => true,
        Err(RaftError::APIError(InitializeError::NotAllowed(_))) => true,
        _ => false,
    }
}

/// What to do with a write the local Raft core refused.
#[derive(Debug, PartialEq, Eq)]
pub enum WriteFallback {
    /// Send it to the leader at this address.
    Forward(String),
    /// Report the error.
    Fail,
}

/// Decides what to do with a write refused with `err` on the node at `self_addr`:
/// forward it to the leader when the leader's address is known and is not this
/// node's, which would forward it forever; otherwise fail.
pub fn write_fallback(err: &RaftError<ClientWriteError>, self_addr: &String) -> (r: WriteFallback)
    ensures
        match err {
            RaftError::APIError(ClientWriteError::ForwardToLeader(f)) => match f.leader_node {
                Some(n) => if n.addr@ != self_addr@ {
                    r matches WriteFallback::Forward(a) && a@ == n.addr@
                } else {
                    r is Fail
                },
                None => r is Fail,
            },
            _ => r is Fail,
        },
{
    match err {
        RaftError::APIError(ClientWriteError::ForwardToLeader(forward)) => match &forward.leader_node {
            Some(n) => {
                if n.addr != *self_addr {
                    WriteFallback::Forward(n.addr.clone())
                } else {
                    WriteFallback::Fail
                }
            },
            None => WriteFallback::Fail,
        },
        _ => WriteFallback::Fail,
    }
}

/// The index a learner has matched, according to the leader's replication progress.
pub open spec fn matched_index(replication: Map<u64, Option<LogId>>, node_id: u64) -> Option<u64> {
    if replication.contains_key(node_id) {
        match replication[node_id] {
            Some(l) => Some(l.index),
            None => None,
        }
    } else {
        None
    }
}

/// `a >= b` for optional indexes, where no index is the least.
pub open spec fn opt_index_ge(a: Option<u64>, b: Option<u64>) -> bool {
    match (a, b) {
        (_, None) => true,
        (None, Some(_)) => false,
        (Some(x), Some(y)) => x >= y,
    }
}

/// Whether to stop waiting before promoting `node_id`: this node is no longer leading
/// (it has no replication progress), or the learner matched the last log index.
pub fn learner_caught_up(
    replication: &Option<BTreeMap<u64, Option<LogId>>>,
    node_id: u64,
    last_log_index: Option<u64>,
) -> (r: bool)
    ensures
        r == match replication {
            None => true,
            Some(m) => opt_index_ge(matched_index(m@, node_id), last_log_index),
        },
{
    match replication {
        None => true,
        Some(m) => {
            let matched = match m.get(&node_id) {
                Some(Some(l)) => Some(l.index),
                _ => None,
            };
            match (matched, last_log_index) {
                (_, None) => true,
                (None, Some(_)) => false,
                (Some(x), Some(y)) => x >= y,
            }
        },
    }
}

/// Whether node `self_id` promotes a caught-up learner: only while it still leads.
pub fn should_promote(current_leader: Option<u64>, self_id: u64) -> (r: bool)
    ensures
        r == (current_leader == Some(self_id)),
{
    match current_leader {
        Some(l) => l == self_id,
        None => false,
    }
}

/// How a node answers a join request.
#[derive(Debug, PartialEq, Eq)]
pub enum JoinDecision {
    /// It is not the leader: try the leader's address, if it knows it.
    Redirect(Option<String>),
    /// It is the leader: admit the joiner.
    Admit,
}

/// Decides how node `my_id` answers a join request, given the leader it knows and the
/// membership in effect.
pub fn join_decision(my_id: u64, current_leader: Option<u64>, membership: &Membership) -> (r:
    JoinDecision)
    ensures
        current_leader == Some(my_id) ==> r is Admit,
        current_leader != Some(my_id) ==> match current_leader {
            Some(l) => if membership.nodes@.contains_key(l) {
                r matches JoinDecision::Redirect(Some(a)) && a@ == membership.nodes@[l].addr@
            } else {
                r == JoinDecision::Redirect(None)
            },
            None => r == JoinDecision::Redirect(None),
        },
{
    match current_leader {
        Some(l) => {
            if l == my_id {
                JoinDecision::Admit
            } else {
                match membership.get_node(&l) {
                    Some(n) => JoinDecision::Redirect(Some(n.addr.clone())),
                    None => JoinDecision::Redirect(None),
                }
            }
        },
        None => JoinDecision::Redirect(None),
    }
}

/// The id the leader gives a joiner: the index of the blank entry it wrote for it,
/// which no other entry of the log shares.
pub fn joiner_node_id(log_id: &LogId) -> (r: u64)
    ensures
        r == log_id.index,
{
    log_id.index
}

/// Why the latest join attempt did not succeed.
#[derive(Debug, PartialEq, Eq)]
pub enum JoinFailure {
    /// No attempt was answered yet.
    NotAccepted,
    /// The node at `target` answered with an error status.
    Rejected { target: String, status: u16, body: String },
    /// The node at `target` is not the leader and named `leader`.
    Redirected { target: String, leader: String },
    /// The node at `target` knows of no leader.
    NoLeader { target: String },
}

/// What a join attempt brought.
#[derive(Debug, PartialEq, Eq)]
pub enum JoinOutcome {
    /// The request could not be sent.
    SendFailed(String),
    /// The node answered with an error status.
    Status { status: u16, body: String },
    /// The answer could not be parsed.
    ParseFailed(String),
    /// The node admitted this one with an id.
    Joined(u64),
    /// The node is not the leader; the leader is at this address.
    Redirect(String),
    /// The node knows of no leader.
    NoLeader,
}

/// Why joining failed.
#[derive(Debug, PartialEq, Eq)]
pub enum JoinError {
    SendFailed(String),
    ParseFailed(String),
    /// Every attempt failed; the latest failure is kept.
    GaveUp { attempts: usize, last: JoinFailure },
}

/// What a joining node does next.
#[derive(Debug, PartialEq, Eq)]
pub enum JoinNext {
    /// Send another request, to the state's target.
    Attempt,
    /// Joined with this id.
    Done(u64),
    /// Joining failed.
    Fail(JoinError),
}

/// Whether an outcome leaves the join going: a refused status, a redirect or an
/// unknown leader.
pub open spec fn is_retried(outcome: JoinOutcome) -> bool {
    outcome is Status || outcome is Redirect || outcome is NoLeader
}

/// The progress of a join: where the next request goes, how many were sent, and why
/// the latest one failed.
#[derive(Debug)]
pub struct JoinState {
    pub target_addr: String,
    pub attempts: usize,
    pub last_failure: JoinFailure,
}

/// The state and the answer after one join attempt from state `s` brought `outcome`.
pub open spec fn join_step(s: JoinState, outcome: JoinOutcome) -> (JoinState, (bool, JoinNext)) {
    let n = (s.attempts + 1) as usize;
    match outcome {
        JoinOutcome::SendFailed(m) => (
            JoinState { attempts: n, ..s },
            (false, JoinNext::Fail(JoinError::SendFailed(m))),
        ),
        JoinOutcome::ParseFailed(m) => (
            JoinState { attempts: n, ..s },
            (false, JoinNext::Fail(JoinError::ParseFailed(m))),
        ),
        JoinOutcome::Joined(id) => (JoinState { attempts: n, ..s }, (false, JoinNext::Done(id))),
        _ => {
            let target = match outcome {
                JoinOutcome::Redirect(leader) => leader,
                _ => s.target_addr,
            };
            let failure = match outcome {
                JoinOutcome::Status { status, body } => JoinFailure::Rejected {
                    target: s.target_addr,
                    status,
                    body,
                },
                JoinOutcome::Redirect(leader) => JoinFailure::Redirected { target: s.target_addr, leader },
                _ => JoinFailure::NoLeader { target: s.target_addr },
            };
            let pause = !(outcome is Redirect);
            let next = if n < JOIN_ATTEMPTS {
                JoinNext::Attempt
            } else {
                JoinNext::Fail(JoinError::GaveUp { attempts: JOIN_ATTEMPTS, last: failure })
            };
            (JoinState { target_addr: target, attempts: n, last_failure: failure }, (pause, next))
        },
    }
}

/// The state and the last answer after the attempts that brought `outcomes`, in order.
pub open spec fn join_run(s: JoinState, outcomes: Seq<JoinOutcome>) -> (JoinState, (bool, JoinNext))
    decreases outcomes.len(),
{
    if outcomes.len() == 0 {
        (s, (false, JoinNext::Attempt))
    } else {
        join_step(join_run(s, outcomes.drop_last()).0, outcomes.last())
    }
}

/// Whether an outcome tells the joiner to try again: the node refused with an error
/// status, redirected to the leader, or knows of no leader yet.
pub open spec fn asks_to_retry(outcome: JoinOutcome) -> bool {
    ||| outcome is Status
    ||| outcome is Redirect
    ||| outcome is NoLeader
}

/// Law: after an outcome that asks to retry, the joiner tries again as long as fewer
/// than `JOIN_ATTEMPTS` attempts were made, and gives up at that many, reporting that
/// count and the failure of this attempt; it pauses first unless it was redirected.
pub proof fn lemma_join_retries_until_limit(s: JoinState, outcome: JoinOutcome)
    requires
        s.attempts < JOIN_ATTEMPTS,
        asks_to_retry(outcome),
    ensures
        join_step(s, outcome).0.attempts == s.attempts + 1,
        join_step(s, outcome).1.1 is Attempt <==> s.attempts + 1 < JOIN_ATTEMPTS,
        s.attempts + 1 == JOIN_ATTEMPTS ==> join_step(s, outcome).1.1 == JoinNext::Fail(
            JoinError::GaveUp { attempts: JOIN_ATTEMPTS, last: join_step(s, outcome).0.last_failure },
        ),
        join_step(s, outcome).1.0 <==> !(outcome is Redirect),
        outcome is NoLeader ==> join_step(s, outcome).0.last_failure == (JoinFailure::NoLeader {
            target: s.target_addr,
        }),
        outcome is NoLeader ==> join_step(s, outcome).0.target_addr == s.target_addr,
{
}

/// Law: a join that keeps hearing outcomes that ask to retry makes one attempt per
/// outcome, keeps going while fewer than `JOIN_ATTEMPTS` were made, and gives up
/// exactly at the `JOIN_ATTEMPTS`-th.
pub proof fn lemma_join_gives_up_only_at_limit(s: JoinState, outcomes: Seq<JoinOutcome>)
    requires
        0 < outcomes.len(),
        s.attempts + outcomes.len() <= JOIN_ATTEMPTS,
        forall|i: int| 0 <= i < outcomes.len() ==> asks_to_retry(#[trigger] outcomes[i]),
    ensures
        join_run(s, outcomes).0.attempts == s.attempts + outcomes.len(),
        join_run(s, outcomes).1.1 is Attempt <==> s.attempts + outcomes.len() < JOIN_ATTEMPTS,
        !(join_run(s, outcomes).1.1 is Attempt) ==> join_run(s, outcomes).1.1 is Fail,
    decreases outcomes.len(),
{
    let prev = outcomes.drop_last();
    assert(asks_to_retry(outcomes[outcomes.len() - 1]));
    if prev.len() > 0 {
        assert forall|i: int| 0 <= i < prev.len() implies asks_to_retry(#[trigger] prev[i]) by {
            assert(prev[i] == outcomes[i]);
        }
        lemma_join_gives_up_only_at_limit(s, prev);
    }
    lemma_join_retries_until_limit(join_run(s, prev).0, outcomes.last());
}

impl JoinState {
    /// A join through the node at `seed_addr`.
    pub fn new(seed_addr: String) -> (r: Self)
        ensures
            r.target_addr@ == seed_addr@,
            r.attempts == 0,
            r.last_failure == JoinFailure::NotAccepted,
    {
        JoinState { target_addr: seed_addr, attempts: 0, last_failure: JoinFailure::NotAccepted }
    }

    /// Takes in the outcome of an attempt. Returns whether to pause before going on,
    /// and what comes next.
    ///
    /// A refused status or an unknown leader is retried after a pause, a redirect is
    /// followed at once; a request that can not be sent or an answer that can not be
    /// read ends the join. After `JOIN_ATTEMPTS` attempts the join gives up with the
    /// latest failure.
    pub fn step(&mut self, outcome: JoinOutcome) -> (r: (bool, JoinNext))
        requires
            old(self).attempts < JOIN_ATTEMPTS,
        ensures
            (*final(self), r) == join_step(*old(self), outcome),
            final(self).attempts == old(self).attempts + 1,
            r.1 is Attempt ==> final(self).attempts < JOIN_ATTEMPTS,
            outcome is NoLeader && final(self).attempts < JOIN_ATTEMPTS ==> r == (
                true,
                JoinNext::Attempt,
            ),
            match outcome {
                JoinOutcome::SendFailed(m) => r == (false, JoinNext::Fail(JoinError::SendFailed(m))),
                JoinOutcome::ParseFailed(m) => r == (false, JoinNext::Fail(JoinError::ParseFailed(m))),
                JoinOutcome::Joined(id) => r == (false, JoinNext::Done(id)),
                JoinOutcome::Status { status, body } => {
                    &&& r.0
                    &&& final(self).target_addr == old(self).target_addr
                    &&& final(self).last_failure == (JoinFailure::Rejected {
                        target: old(self).target_addr,
                        status,
                        body,
                    })
                },
                JoinOutcome::Redirect(leader) => {
                    &&& !r.0
                    &&& final(self).target_addr == leader
                    &&& final(self).last_failure == (JoinFailure::Redirected {
                        target: old(self).target_addr,
                        leader,
                    })
                },
                JoinOutcome::NoLeader => {
                    &&& r.0
                    &&& final(self).target_addr == old(self).target_addr
                    &&& final(self).last_failure == (JoinFailure::NoLeader {
                        target: old(self).target_addr,
                    })
                },
            },
            is_retried(outcome) ==> if final(self).attempts < JOIN_ATTEMPTS {
                r.1 is Attempt
            } else {
                r.1 == JoinNext::Fail(
                    JoinError::GaveUp { attempts: JOIN_ATTEMPTS, last: final(self).last_failure },
                )
            },
    {
        self.attempts = self.attempts + 1;
        let pause = match outcome {
            JoinOutcome::SendFailed(m) => {
                return (false, JoinNext::Fail(JoinError::SendFailed(m)));
            },
            JoinOutcome::ParseFailed(m) => {
                return (false, JoinNext::Fail(JoinError::ParseFailed(m)));
            },
            JoinOutcome::Joined(id) => {
                return (false, JoinNext::Done(id));
            },
            JoinOutcome::Status { status, body } => {
                self.last_failure = JoinFailure::Rejected {
                    target: self.target_addr.clone(),
                    status,
                    body,
                };
                true
            },
            JoinOutcome::Redirect(leader) => {
                let target = self.target_addr.clone();
                self.target_addr = leader.clone();
                self.last_failure = JoinFailure::Redirected { target, leader };
                false
            },
            JoinOutcome::NoLeader => {
                self.last_failure = JoinFailure::NoLeader { target: self.target_addr.clone() };
                true
            },
        };
        if self.attempts < JOIN_ATTEMPTS {
            (pause, JoinNext::Attempt)
        } else {
            let last = self.take_last_failure();
            (pause, JoinNext::Fail(JoinError::GaveUp { attempts: JOIN_ATTEMPTS, last }))
        }
    }

    fn take_last_failure(&mut self) -> (r: JoinFailure)
        ensures
            r == old(self).last_failure,
            final(self).last_failure == old(self).last_failure,
            final(self).target_addr == old(self).target_addr,
            final(self).attempts == old(self).attempts,
    {
        match &self.last_failure {
            JoinFailure::NotAccepted => JoinFailure::NotAccepted,
            JoinFailure::Rejected { target, status, body } => JoinFailure::Rejected {
                target: target.clone(),
                status: *status,
                body: body.clone(),
            },
            JoinFailure::Redirected { target, leader } => JoinFailure::Redirected {
                target: target.clone(),
                leader: leader.clone(),
            },
            JoinFailure::NoLeader { target } => JoinFailure::NoLeader { target: target.clone() },
        }
    }
}

/// How a failed RPC send is classified.
#[derive(Debug, Clone, Copy, PartialEq, Eq)]
pub enum SendErrorKind {
    /// The peer could not be connected to, or did not answer in time: back off.
    Unreachable,
    /// Any other failure: retry at once.
    Network,
}

/// Classifies a failed send: a connection failure or a timeout means the peer is
/// unreachable, so that replication backs off instead of hammering it.
pub fn send_error_kind(is_connect: bool, is_timeout: bool) -> (r: SendErrorKind)
    ensures
        r == if is_connect || is_timeout {
            SendErrorKind::Unreachable
        } else {
            SendErrorKind::Network
        },
{
    if is_connect || is_timeout {
        SendErrorKind::Unreachable
    } else {
        SendErrorKind::Network
    }
}

/// The answer of a snapshot installation on node `target`, with a refusal turned into
/// a remote API error of that node.
pub fn install_snapshot_result<R>(target: u64, res: Result<R, InstallSnapshotError>) -> (r: Result<
    R,
    RPCError<RaftError<InstallSnapshotError>>,
>)
    ensures
        r == match res {
            Ok(resp) => Ok::<R, RPCError<RaftError<InstallSnapshotError>>>(resp),
            Err(e) => Err(
                RPCError::RemoteError(
                    RemoteError { target, target_node: None, source: RaftError::APIError(e) },
                ),
            ),
        },
{
    match res {
        Ok(resp) => Ok(resp),
        Err(e) => Err(RPCError::RemoteError(RemoteError::new(target, RaftError::APIError(e)))),
    }
}

} // verus!
