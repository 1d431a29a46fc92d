use std::time::Duration;

use ezraft::errors::ChangeMembershipError;
use ezraft::errors::ClientWriteError;
use ezraft::errors::ConflictingLogId;
use ezraft::errors::EmptyMembership;
use ezraft::errors::ErrorSubject;
use ezraft::errors::ErrorVerb;
use ezraft::errors::Fatal;
use ezraft::errors::ForwardToLeader;
use ezraft::errors::InProgress;
use ezraft::errors::Infallible;
use ezraft::errors::LearnerNotFound;
use ezraft::errors::MembershipError;
use ezraft::errors::NetworkError;
use ezraft::errors::NodeNotFound;
use ezraft::errors::RPCError;
use ezraft::errors::RPCTypes;
use ezraft::errors::RaftError;
use ezraft::errors::RejectAppendEntries;
use ezraft::errors::RejectVote;
use ezraft::errors::RemoteError;
use ezraft::errors::StreamAppendError;
use ezraft::errors::Timeout;
use ezraft::errors::Unreachable;
use ezraft::errors::into_raft_result;
use ezraft::errors::fatal_into_raft_result;
use ezraft::log_id::LogId;
use ezraft::membership::BasicNode;
use ezraft::storage_io::StorageIOResult;
use ezraft::vote::Vote;

fn timeout() -> Timeout {
    Timeout { action: RPCTypes::Vote, id: 1, target: 2, timeout: Duration::from_millis(10) }
}

#[test]
fn backoff_ranks() {
    let t: RPCError = RPCError::Timeout(timeout());
    assert_eq!(2, t.backoff_rank());
    let n: RPCError = RPCError::Network(NetworkError::from_string("reset"));
    assert_eq!(2, n.backoff_rank());
    let u: RPCError = RPCError::Unreachable(Unreachable::from_string("down"));
    assert_eq!(100, u.backoff_rank());
    let r: RPCError<Fatal> = RPCError::RemoteError(RemoteError::new(3, Fatal::Stopped));
    assert_eq!(100, r.backoff_rank());
}

#[test]
fn forward_to_leader_only_from_a_remote_api_error() {
    let f = ForwardToLeader::new(4, BasicNode::new("a:1".to_string()));
    let e: RPCError<RaftError<ClientWriteError>> = RPCError::RemoteError(RemoteError::new(
        4,
        RaftError::APIError(ClientWriteError::ForwardToLeader(f.clone())),
    ));
    assert_eq!(Some(&f), e.forward_to_leader());

    let fatal: RPCError<RaftError<ClientWriteError>> =
        RPCError::RemoteError(RemoteError::new(4, RaftError::Fatal(Fatal::Panicked)));
    assert_eq!(None, fatal.forward_to_leader());

    let change: RPCError<RaftError<ClientWriteError>> = RPCError::RemoteError(RemoteError::new(
        4,
        RaftError::APIError(ClientWriteError::ChangeMembershipError(
            ChangeMembershipError::EmptyMembership(EmptyMembership {}),
        )),
    ));
    assert_eq!(None, change.forward_to_leader());

    let t: RPCError<RaftError<ClientWriteError>> = RPCError::Timeout(timeout());
    assert_eq!(None, t.forward_to_leader());
}

#[test]
fn forward_to_leader_empty_and_new() {
    let e = ForwardToLeader::empty();
    assert_eq!(None, e.leader_id);
    assert_eq!(None, e.leader_node);
    let n = ForwardToLeader::new(2, BasicNode::new("x".to_string()));
    assert_eq!(Some(2), n.leader_id);
    assert_eq!(Some(BasicNode::new("x".to_string())), n.leader_node);
}

#[test]
fn with_raft_error_keeps_the_error() {
    let t: RPCError = RPCError::Timeout(timeout());
    let r: RPCError<RaftError<Infallible>> = t.with_raft_error();
    assert_eq!(RPCError::Timeout(timeout()), r);
}

#[test]
fn remote_errors() {
    let e = RemoteError::new(7, Fatal::Stopped);
    assert_eq!(7, e.target);
    assert_eq!(None, e.target_node);
    let n = RemoteError::new_with_node(7, BasicNode::new("h".to_string()), Fatal::Stopped);
    assert_eq!(Some(BasicNode::new("h".to_string())), n.target_node);
    let r: RemoteError<RaftError<ClientWriteError>> = n.into_raft_error();
    assert_eq!(RaftError::Fatal(Fatal::Stopped), r.source);
}

#[test]
fn membership_error_becomes_change_membership_error() {
    assert_eq!(
        ChangeMembershipError::EmptyMembership(EmptyMembership {}),
        ChangeMembershipError::from_membership_error(MembershipError::EmptyMembership(EmptyMembership {}))
    );
    assert_eq!(
        ChangeMembershipError::LearnerNotFound(LearnerNotFound { node_id: 9 }),
        ChangeMembershipError::from_membership_error(MembershipError::NodeNotFound(NodeNotFound { node_id: 9 }))
    );
    let p = ChangeMembershipError::InProgress(InProgress { committed: None, membership_log_id: None });
    assert_ne!(p, ChangeMembershipError::EmptyMembership(EmptyMembership {}));
}

#[test]
fn reject_append_entries_conversions() {
    let higher = Vote::new(5, 1);
    let r = RejectAppendEntries::from_reject_vote(RejectVote { higher });
    assert_eq!(StreamAppendError::HigherVote(higher), r.into_stream_append_error());
    assert_eq!(Err(RejectVote { higher }), r.peel());

    let c = ConflictingLogId { expect: LogId::new_term_index(2, 3), local: None };
    let r = RejectAppendEntries::ConflictingLogId(c);
    assert_eq!(StreamAppendError::Conflict(LogId::new_term_index(2, 3)), r.into_stream_append_error());
    assert_eq!(Ok(c), r.peel());
}

#[test]
fn nested_results_flatten() {
    let ok: Result<Result<u8, String>, Fatal> = Ok(Ok(1));
    assert_eq!(Ok(1), into_raft_result(ok));
    let api: Result<Result<u8, String>, Fatal> = Ok(Err("no".to_string()));
    assert_eq!(Err(RaftError::APIError("no".to_string())), into_raft_result(api));
    let fatal: Result<Result<u8, String>, Fatal> = Err(Fatal::Panicked);
    assert_eq!(Err(RaftError::Fatal(Fatal::Panicked)), into_raft_result(fatal));
    assert_eq!(Err(RaftError::Fatal(Fatal::Stopped)), fatal_into_raft_result::<u8>(Err(Fatal::Stopped)));
    assert_eq!(Ok(3), fatal_into_raft_result::<u8>(Ok(3)));
}

#[test]
fn error_messages_carry_the_text() {
    let n = NetworkError::from_string("connection reset");
    assert_eq!("connection reset", n.source.to_string());
    let u = Unreachable::from_string("no route");
    assert_eq!("no route", u.source.to_string());
}

#[test]
fn io_results_become_storage_errors() {
    let ok: Result<u8, std::io::Error> = Ok(4);
    assert_eq!(4, ok.sto_write_vote().unwrap());

    let err: Result<u8, std::io::Error> = Err(std::io::Error::other("disk"));
    let e = err.sto_apply(LogId::new_term_index(1, 2)).unwrap_err();
    assert_eq!(ErrorSubject::Apply(LogId::new_term_index(1, 2)), e.subject);
    assert_eq!(ErrorVerb::Write, e.verb);

    let err: Result<u8, std::io::Error> = Err(std::io::Error::other("disk"));
    let e = err.sto_read_log_at_index(7).unwrap_err();
    assert_eq!(ErrorSubject::LogIndex(7), e.subject);
    assert_eq!(ErrorVerb::Read, e.verb);

    let err: Result<u8, std::io::Error> = Err(std::io::Error::other("disk"));
    let e = err.sto_read_snapshot(None).unwrap_err();
    assert_eq!(ErrorSubject::Snapshot(None), e.subject);
    assert_eq!(ErrorVerb::Read, e.verb);
    assert!(e.source.to_string().contains("disk"));
}
