use std::collections::BTreeMap;
use std::collections::BTreeSet;

use ezraft::entry::EntryPayload;
use ezraft::entry::EzEntry;
use ezraft::entry::RaftEntry;
use ezraft::entry::RaftPayload;
use ezraft::log_id::LogId;
use ezraft::membership::BasicNode;
use ezraft::membership::Membership;
use ezraft::membership::StoredMembership;
use ezraft::storage::snapshot_id_of;
use ezraft::storage::EzMeta;
use ezraft::storage::RangeBound;
use ezraft::storage::Snapshot;
use ezraft::storage::SnapshotMeta;
use ezraft::storage::StateMachineState;
use ezraft::text::decimal_string;
use ezraft::vote::Vote;

fn meta(last_purged: Option<(u64, u64)>, last_log_id: Option<(u64, u64)>) -> EzMeta {
    EzMeta { node_id: Some(1), vote: None, last_log_id, last_purged }
}

fn one_voter(id: u64) -> Membership {
    let mut nodes = BTreeMap::new();
    nodes.insert(id, BasicNode::new(format!("h{}", id)));
    Membership::new(vec![BTreeSet::from([id])], nodes)
}

fn entry(term: u64, index: u64, payload: EntryPayload<String>) -> EzEntry<String> {
    EzEntry { log_id: (term, index), payload }
}

#[test]
fn read_range_is_cut_to_the_stored_entries() {
    let m = meta(Some((1, 4)), Some((2, 9)));
    assert_eq!(Some((5, 10)), m.read_range(RangeBound::Unbounded, RangeBound::Unbounded));
    assert_eq!(Some((6, 8)), m.read_range(RangeBound::Included(6), RangeBound::Excluded(8)));
    assert_eq!(Some((7, 9)), m.read_range(RangeBound::Excluded(6), RangeBound::Included(8)));
    assert_eq!(Some((5, 10)), m.read_range(RangeBound::Included(0), RangeBound::Included(100)));
    assert_eq!(None, m.read_range(RangeBound::Included(2), RangeBound::Excluded(5)));
    assert_eq!(None, m.read_range(RangeBound::Included(10), RangeBound::Unbounded));
    assert_eq!(None, meta(None, None).read_range(RangeBound::Unbounded, RangeBound::Unbounded));
    assert_eq!(Some((0, 1)), meta(None, Some((1, 0))).read_range(RangeBound::Unbounded, RangeBound::Unbounded));
}

#[test]
fn metadata_updates() {
    let mut m = EzMeta::default();
    assert_eq!(None, m.log_state().last_log_id);

    let v = Vote::new(3, 1);
    let persisted = m.save_vote(v);
    assert_eq!(Some(v), m.vote);
    assert_eq!(m, persisted);

    m.save_node_id(4);
    assert_eq!(Some(4), m.node_id);

    let entries = vec![entry(1, 0, EntryPayload::Blank), entry(1, 1, EntryPayload::Normal("a".into()))];
    let expected = EzMeta { last_log_id: Some((1, 1)), ..m };
    assert_eq!(Some(expected), m.append(&entries));
    assert_eq!(expected, m);
    assert_eq!(Some((1, 1)), m.last_log_id);
    assert_eq!(None, m.append::<String>(&vec![]));

    m.truncate_after(Some(LogId::new_term_index(1, 0)));
    assert_eq!(Some((1, 0)), m.last_log_id);
    m.truncate_after(None);
    assert_eq!(None, m.last_log_id);

    m.purge(LogId::new_term_index(1, 0));
    assert_eq!(Some((1, 0)), m.last_purged);
    let s = m.log_state();
    assert_eq!(Some(LogId::new_term_index(1, 0)), s.last_purged_log_id);
}

#[test]
fn applying_entries_moves_the_state_machine() {
    let (mut sm, data) = StateMachineState::restored(&None);
    assert_eq!(None, data);
    assert_eq!(None, sm.last_applied);
    assert_eq!(None, sm.membership.log_id);

    assert_eq!(Some("x".to_string()), sm.apply_entry(entry(1, 1, EntryPayload::Normal("x".into()))));
    assert_eq!(Some(LogId::new_term_index(1, 1)), sm.last_applied);

    assert_eq!(None, sm.apply_entry(entry(1, 2, EntryPayload::Membership(one_voter(3)))));
    assert_eq!(Some(LogId::new_term_index(1, 2)), sm.membership.log_id);
    assert_eq!(one_voter(3), sm.membership.membership);

    assert_eq!(None, sm.apply_entry(entry(2, 3, EntryPayload::Blank)));
    assert_eq!(Some(LogId::new_term_index(2, 3)), sm.last_applied);
    assert_eq!(Some(LogId::new_term_index(1, 2)), sm.membership.log_id);

    let (applied, membership) = sm.applied_state();
    assert_eq!(Some(LogId::new_term_index(2, 3)), applied);
    assert_eq!(sm.membership, membership);
}

#[test]
fn snapshot_built_then_installed_gives_back_the_state() {
    let (mut sm, _) = StateMachineState::restored(&None);
    sm.apply_entry(entry(3, 7, EntryPayload::Membership(one_voter(2))));
    let meta = sm.build_snapshot_meta();
    assert_eq!("3-7", meta.snapshot_id);
    assert_eq!(Some(LogId::new_term_index(3, 7)), meta.last_log_id);

    let (mut other, _) = StateMachineState::restored(&None);
    other.install_snapshot(&meta);
    assert_eq!(sm.last_applied, other.last_applied);
    assert_eq!(sm.membership, other.membership);

    let loaded = Some(Snapshot { meta: meta.clone(), snapshot: vec![1, 2] });
    let (restored, to_install) = StateMachineState::restored(&loaded);
    assert_eq!(sm.last_applied, restored.last_applied);
    assert_eq!(sm.membership, restored.membership);
    assert_eq!(Some(&vec![1u8, 2]), to_install);

    let mut store = EzMeta::default();
    store.install_snapshot(&meta);
    assert_eq!(Some((3, 7)), store.last_log_id);
}

#[test]
fn snapshot_ids() {
    assert_eq!("0-0", snapshot_id_of(None));
    assert_eq!("12-345", snapshot_id_of(Some(LogId::new_term_index(12, 345))));
    assert_eq!("0-0", snapshot_id_of(Some(LogId::new_term_index(0, 0))));
}

#[test]
fn decimal_text() {
    assert_eq!("0", decimal_string(0));
    assert_eq!("9", decimal_string(9));
    assert_eq!("10", decimal_string(10));
    assert_eq!(u64::MAX.to_string(), decimal_string(u64::MAX));
}

#[test]
fn snapshot_signature() {
    let meta = SnapshotMeta {
        last_log_id: Some(LogId::new_term_index(2, 5)),
        last_membership: StoredMembership::new(Some(LogId::new_term_index(1, 1)), one_voter(1)),
        snapshot_id: "2-5".to_string(),
    };
    let sig = meta.signature();
    assert_eq!(Some(LogId::new_term_index(2, 5)), sig.last_log_id);
    assert_eq!(Some(Box::new(LogId::new_term_index(1, 1))), sig.last_membership_log_id);
    assert_eq!("2-5", sig.snapshot_id);
    assert_eq!(Some(&LogId::new_term_index(2, 5)), meta.last_log_id());
}

#[test]
fn entries_and_payloads() {
    let mut e: EzEntry<String> = RaftEntry::new(LogId::new_term_index(4, 2), EntryPayload::Membership(one_voter(1)));
    assert_eq!((4, 2), e.log_id);
    assert_eq!(Some(one_voter(1)), e.get_membership());
    e.set_log_id(LogId::new_term_index(5, 3));
    let (leader, index) = e.log_id_parts();
    assert_eq!((5, 3), (leader.term, index));
    let n = entry(1, 1, EntryPayload::Normal("r".into()));
    assert_eq!(None, n.get_membership());
}

#[test]
fn truncation_starts_after_the_kept_entry() {
    assert_eq!(Some(0), EzMeta::truncate_logs_from(None));
    assert_eq!(Some(6), EzMeta::truncate_logs_from(Some(LogId::new_term_index(2, 5))));
    assert_eq!(None, EzMeta::truncate_logs_from(Some(LogId::new_term_index(2, u64::MAX))));
}

#[test]
fn cloned_entries_keep_their_payload() {
    let e = entry(1, 2, EntryPayload::Normal("x".to_string()));
    assert_eq!(e, e.clone());
    let m = entry(1, 3, EntryPayload::Membership(one_voter(7)));
    assert_eq!(m, m.clone());
    let b: EzEntry<String> = entry(1, 4, EntryPayload::Blank);
    assert_eq!(b, b.clone());
}
