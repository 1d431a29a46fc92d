use std::cmp::Ordering;
use ezraft::acceptor::Accepted;
use ezraft::acceptor::AcceptedBorrow;
use ezraft::errors::ErrorSubject;
use ezraft::errors::HigherVote;
use ezraft::errors::RPCError;
use ezraft::errors::ReplicationClosed;
use ezraft::errors::ReplicationError;
use ezraft::errors::Unreachable;
use ezraft::log_id::LogId;
use ezraft::log_id::LogIdRange;
use ezraft::log_io::ClientWriteResponse;
use ezraft::log_io::LogIO;
use ezraft::log_io::LogMetaV3;
use ezraft::replication::check_snapshot_response;
use ezraft::replication::on_snapshot_send_error;
use ezraft::replication::snapshot_to_send;
use ezraft::replication::InflightId;
use ezraft::replication::LogIOId;
use ezraft::replication::Payload;
use ezraft::replication::Replicate;
use ezraft::replication::ReplicationSessionId;
use ezraft::replication::SnapshotErrorAction;
use ezraft::vote::CommittedVote;
use ezraft::vote::LeaderId;
use ezraft::vote::Vote;

fn leader() -> CommittedVote {
    CommittedVote::new(LeaderId { term: 2, voted_for: Some(1) })
}

#[test]
fn snapshot_response_with_greater_vote_is_refused() {
    let mine = Vote::new_committed(2, 1);
    assert_eq!(Ok(()), check_snapshot_response(mine, mine));
    assert_eq!(Ok(()), check_snapshot_response(Vote::new(1, 3), mine));
    let higher = Vote::new(3, 2);
    assert_eq!(Err(HigherVote { higher, sender_vote: mine }), check_snapshot_response(higher, mine));
}

#[test]
fn missing_snapshot_is_a_storage_error() {
    let e = snapshot_to_send(None).unwrap_err();
    assert_eq!(ErrorSubject::Snapshot(None), e.subject);
    assert_eq!("snapshot not found", e.source.to_string());
}

#[test]
fn snapshot_send_errors() {
    let a = on_snapshot_send_error(ReplicationError::Closed(ReplicationClosed::new("bye")), 3, leader(), false);
    assert!(matches!(a, SnapshotErrorAction::Stop));

    let h = HigherVote { higher: Vote::new(9, 9), sender_vote: Vote::new_committed(2, 1) };
    match on_snapshot_send_error(ReplicationError::HigherVote(h), 3, leader(), false) {
        SnapshotErrorAction::NotifyHigherVote { target, higher, leader_vote } => {
            assert_eq!(3, target);
            assert_eq!(Vote::new(9, 9), higher);
            assert_eq!(leader(), leader_vote);
        }
        other => panic!("unexpected {:?}", other),
    }

    let unreachable = ReplicationError::RPCError(RPCError::Unreachable(Unreachable::from_string("down")));
    match on_snapshot_send_error(unreachable.clone(), 3, leader(), false) {
        SnapshotErrorAction::NotifyProgressError { start_backoff, .. } => assert!(start_backoff),
        other => panic!("unexpected {:?}", other),
    }
    match on_snapshot_send_error(unreachable, 3, leader(), true) {
        SnapshotErrorAction::NotifyProgressError { start_backoff, .. } => assert!(!start_backoff),
        other => panic!("unexpected {:?}", other),
    }
}

#[test]
fn replication_requests() {
    let d = Replicate::default();
    assert_eq!(InflightId::new(0), d.inflight_id);
    let range = LogIdRange::new(None, Some(LogId::new_term_index(1, 3)));
    let r = Replicate::new_logs(range, InflightId::new(5));
    assert_eq!(Payload::LogIdRange { log_id_range: range }, r.payload);
    let s = Replicate::new_logs_since(Some(LogId::new_term_index(1, 2)), InflightId::new(6));
    assert_eq!(Payload::LogsSince { prev: Some(LogId::new_term_index(1, 2)) }, s.payload);
}

#[test]
fn io_and_session_ids() {
    let io = LogIOId::new(leader(), Some(LogId::new_term_index(2, 4)));
    assert_eq!(LeaderId { term: 2, voted_for: Some(1) }, io.leader_id());
    assert_eq!(Some(&LogId::new_term_index(2, 4)), io.last_log_id());
    assert_eq!(leader(), io.to_committed_vote());
    let s = ReplicationSessionId::new(leader(), None);
    assert_eq!(None, s.membership_log_id);
}

#[test]
fn accepted_values() {
    let lid = LeaderId { term: 1, voted_for: Some(1) };
    let mut a = Accepted::new(lid, None);
    a.accept_value(Some(LogId::new_term_index(1, 3)));
    assert_eq!(Some(LogId::new_term_index(1, 3)), a.last_log_id);
    assert_eq!(lid, a.leader_id);
    let b = AcceptedBorrow::new(&a.leader_id, &a.last_log_id);
    assert_eq!(&lid, b.leader_id);
}

#[test]
fn log_io_and_client_response() {
    let m = LogMetaV3::default();
    assert!(matches!(LogIO::<u8>::meta(m), LogIO::Meta(_)));
    assert!(matches!(LogIO::<u8>::purge(LogId::new_term_index(1, 1)), LogIO::Purge(_)));
    assert!(matches!(LogIO::<u8>::truncate(LogId::new_term_index(1, 1)), LogIO::Truncate(_)));
    match LogIO::append(vec![1u8, 2]) {
        LogIO::Append(v) => assert_eq!(vec![1, 2], v),
        _ => panic!("not an append"),
    }
    let r = ClientWriteResponse::new_app_response(LogId::new_term_index(1, 2), "ok");
    assert_eq!(&LogId::new_term_index(1, 2), r.log_id());
    assert_eq!(&"ok", r.response());
    assert!(r.membership().is_none());
}

#[test]
fn newer_leader_orders_accepted_values_and_appends() {
    let old_leader = LeaderId { term: 1, voted_for: Some(1) };
    let new_leader = LeaderId { term: 2, voted_for: Some(2) };
    let a = Accepted::new(old_leader, Some(LogId::new_term_index(1, 9)));
    let b = Accepted::new(new_leader, Some(LogId::new_term_index(2, 3)));
    assert_eq!(Some(Ordering::Less), a.cmp_accepted(&b));
    assert_eq!(Some(Ordering::Greater), b.cmp_accepted(&a));

    let c = Accepted::new(old_leader, Some(LogId::new_term_index(1, 4)));
    assert_eq!(Some(Ordering::Greater), a.cmp_accepted(&c));
    assert_eq!(Some(Ordering::Equal), a.cmp_accepted(&a));

    let rival = LeaderId { term: 1, voted_for: Some(2) };
    assert_eq!(None, a.cmp_accepted(&Accepted::new(rival, None)));

    let io_old = LogIOId::new(CommittedVote::new(old_leader), Some(LogId::new_term_index(1, 9)));
    let io_new = LogIOId::new(CommittedVote::new(new_leader), None);
    assert_eq!(Some(Ordering::Less), io_old.cmp_io_id(&io_new));
    let io_short = LogIOId::new(CommittedVote::new(old_leader), Some(LogId::new_term_index(1, 2)));
    assert_eq!(Some(Ordering::Greater), io_old.cmp_io_id(&io_short));
}
