use std::collections::BTreeMap;
use std::collections::BTreeSet;

use ezraft::errors::ClientWriteError;
use ezraft::errors::Fatal;
use ezraft::errors::ForwardToLeader;
use ezraft::errors::InitializeError;
use ezraft::errors::InstallSnapshotError;
use ezraft::errors::NotAllowed;
use ezraft::errors::RPCError;
use ezraft::errors::RaftError;
use ezraft::errors::RemoteError;
use ezraft::errors::SnapshotMismatch;
use ezraft::errors::SnapshotSegmentId;
use ezraft::log_id::LogId;
use ezraft::membership::BasicNode;
use ezraft::membership::Membership;
use ezraft::node::choose_node_id;
use ezraft::node::founder_members;
use ezraft::node::initialize_outcome_ok;
use ezraft::node::install_snapshot_result;
use ezraft::node::join_decision;
use ezraft::node::joiner_node_id;
use ezraft::node::learner_caught_up;
use ezraft::node::send_error_kind;
use ezraft::node::should_initialize;
use ezraft::node::should_promote;
use ezraft::node::write_fallback;
use ezraft::node::JoinDecision;
use ezraft::node::JoinError;
use ezraft::node::JoinFailure;
use ezraft::node::JoinNext;
use ezraft::node::JoinOutcome;
use ezraft::node::JoinState;
use ezraft::node::NodeIdSource;
use ezraft::node::SendErrorKind;
use ezraft::node::WriteFallback;
use ezraft::node::JOIN_ATTEMPTS;
use ezraft::vote::Vote;

fn forward(addr: Option<&str>) -> RaftError<ClientWriteError> {
    RaftError::APIError(ClientWriteError::ForwardToLeader(ForwardToLeader {
        leader_id: addr.map(|_| 1),
        leader_node: addr.map(|a| BasicNode::new(a.to_string())),
    }))
}

#[test]
fn node_id_sources() {
    assert_eq!(NodeIdSource::Persisted(5), choose_node_id(Some(5), Some("seed".into())));
    assert_eq!(NodeIdSource::Join("seed".into()), choose_node_id(None, Some("seed".into())));
    assert_eq!(NodeIdSource::Found, choose_node_id(None, None));
    assert!(should_initialize(0));
    assert!(!should_initialize(3));
}

#[test]
fn initialize_outcomes() {
    assert!(initialize_outcome_ok(&Ok(())));
    let not_allowed = RaftError::APIError(InitializeError::NotAllowed(NotAllowed {
        last_log_id: None,
        vote: Vote::new(1, 0),
    }));
    assert!(initialize_outcome_ok(&Err(not_allowed)));
    assert!(!initialize_outcome_ok(&Err(RaftError::Fatal(Fatal::Stopped))));
}

#[test]
fn write_is_forwarded_to_another_leader_only() {
    let me = "127.0.0.1:1".to_string();
    assert_eq!(WriteFallback::Forward("127.0.0.1:2".into()), write_fallback(&forward(Some("127.0.0.1:2")), &me));
    assert_eq!(WriteFallback::Fail, write_fallback(&forward(Some("127.0.0.1:1")), &me));
    assert_eq!(WriteFallback::Fail, write_fallback(&forward(None), &me));
    assert_eq!(WriteFallback::Fail, write_fallback(&RaftError::Fatal(Fatal::Panicked), &me));
}

#[test]
fn learner_catch_up() {
    let mut replication = BTreeMap::new();
    replication.insert(4u64, Some(LogId::new_term_index(1, 9)));
    replication.insert(5u64, None);
    let r = Some(replication);
    assert!(learner_caught_up(&r, 4, Some(9)));
    assert!(!learner_caught_up(&r, 4, Some(10)));
    assert!(!learner_caught_up(&r, 5, Some(0)));
    assert!(learner_caught_up(&r, 5, None));
    assert!(!learner_caught_up(&r, 6, Some(0)));
    // Not the leader anymore: stop waiting.
    assert!(learner_caught_up(&None, 4, Some(100)));
    assert!(should_promote(Some(2), 2));
    assert!(!should_promote(Some(1), 2));
    assert!(!should_promote(None, 2));
}

#[test]
fn join_requests_are_answered_by_the_leader() {
    let mut nodes = BTreeMap::new();
    nodes.insert(0u64, BasicNode::new("leader:1".into()));
    let m = Membership::new(vec![BTreeSet::from([0u64])], nodes);
    assert_eq!(JoinDecision::Admit, join_decision(0, Some(0), &m));
    assert_eq!(JoinDecision::Redirect(Some("leader:1".into())), join_decision(3, Some(0), &m));
    assert_eq!(JoinDecision::Redirect(None), join_decision(3, Some(7), &m));
    assert_eq!(JoinDecision::Redirect(None), join_decision(3, None, &m));
    assert_eq!(12, joiner_node_id(&LogId::new_term_index(2, 12)));
}

#[test]
fn join_follows_redirects_and_succeeds() {
    let mut s = JoinState::new("seed:1".into());
    assert_eq!((false, JoinNext::Attempt), s.step(JoinOutcome::Redirect("leader:2".into())));
    assert_eq!("leader:2", s.target_addr);
    assert_eq!((true, JoinNext::Attempt), s.step(JoinOutcome::NoLeader));
    assert_eq!(JoinFailure::NoLeader { target: "leader:2".into() }, s.last_failure);
    assert_eq!((false, JoinNext::Done(7)), s.step(JoinOutcome::Joined(7)));
    assert_eq!(3, s.attempts);
}

#[test]
fn join_ends_on_send_or_parse_failure() {
    let mut s = JoinState::new("seed:1".into());
    assert_eq!(
        (false, JoinNext::Fail(JoinError::SendFailed("refused".into()))),
        s.step(JoinOutcome::SendFailed("refused".into()))
    );
    let mut s = JoinState::new("seed:1".into());
    assert_eq!(
        (false, JoinNext::Fail(JoinError::ParseFailed("bad json".into()))),
        s.step(JoinOutcome::ParseFailed("bad json".into()))
    );
}

#[test]
fn join_gives_up_after_the_last_attempt() {
    let mut s = JoinState::new("seed:1".into());
    for _ in 0..JOIN_ATTEMPTS - 1 {
        assert_eq!((true, JoinNext::Attempt), s.step(JoinOutcome::Status { status: 503, body: "busy".into() }));
    }
    let (pause, next) = s.step(JoinOutcome::Status { status: 503, body: "busy".into() });
    assert!(pause);
    assert_eq!(
        JoinNext::Fail(JoinError::GaveUp {
            attempts: 20,
            last: JoinFailure::Rejected { target: "seed:1".into(), status: 503, body: "busy".into() },
        }),
        next
    );
}

#[test]
fn send_errors_are_classified() {
    assert_eq!(SendErrorKind::Unreachable, send_error_kind(true, false));
    assert_eq!(SendErrorKind::Unreachable, send_error_kind(false, true));
    assert_eq!(SendErrorKind::Network, send_error_kind(false, false));
}

#[test]
fn install_snapshot_refusal_is_a_remote_error() {
    let ok: Result<u8, InstallSnapshotError> = Ok(1);
    assert_eq!(Ok(1), install_snapshot_result(3, ok));
    let mismatch = InstallSnapshotError::SnapshotMismatch(SnapshotMismatch {
        expect: SnapshotSegmentId { id: "a".into(), offset: 0 },
        got: SnapshotSegmentId { id: "a".into(), offset: 8 },
    });
    let r: Result<u8, _> = install_snapshot_result(3, Err(mismatch.clone()));
    assert_eq!(Err(RPCError::RemoteError(RemoteError::new(3, RaftError::APIError(mismatch)))), r);
}

#[test]
fn founder_starts_alone() {
    let m = founder_members(0, "127.0.0.1:8080".to_string());
    assert_eq!(1, m.len());
    assert_eq!(Some(&BasicNode::new("127.0.0.1:8080".to_string())), m.get(&0));
}
