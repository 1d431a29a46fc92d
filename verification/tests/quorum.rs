use std::collections::BTreeMap;
use std::collections::BTreeSet;

use ezraft::log_id::LogId;
use ezraft::membership::BasicNode;
use ezraft::membership::EffectiveMembership;
use ezraft::membership::Membership;
use ezraft::membership::StoredMembership;
use ezraft::quorum::set_to_vec;
use ezraft::quorum::vec_to_set;
use ezraft::quorum::Joint;
use ezraft::quorum::QuorumSet;

fn ids(v: &[u64]) -> BTreeSet<u64> {
    v.iter().copied().collect()
}

fn node(addr: &str) -> BasicNode {
    BasicNode::new(addr.to_string())
}

fn membership(configs: Vec<Vec<u64>>, nodes: &[u64]) -> Membership {
    let configs = configs.into_iter().map(|c| c.into_iter().collect()).collect();
    let nodes: BTreeMap<u64, BasicNode> = nodes.iter().map(|&id| (id, node(&format!("n{}", id)))).collect();
    Membership::new(configs, nodes)
}

#[test]
fn majority_of_five_needs_three() {
    let qs: Vec<u64> = vec![1, 2, 3, 4, 5];
    assert!(!qs.is_quorum(&ids(&[1, 2])));
    assert!(qs.is_quorum(&ids(&[1, 2, 3])));
    // Ids outside the config do not count.
    assert!(!qs.is_quorum(&ids(&[1, 2, 6, 7, 8])));
    assert!(qs.is_quorum(&ids(&[1, 2, 3, 6, 7])));
}

#[test]
fn majority_of_four_needs_three() {
    let qs: Vec<u64> = vec![1, 2, 3, 4];
    assert!(!qs.is_quorum(&ids(&[1, 2])));
    assert!(qs.is_quorum(&ids(&[2, 3, 4])));
}

#[test]
fn empty_config_has_no_quorum() {
    let qs: Vec<u64> = vec![];
    assert!(!qs.is_quorum(&ids(&[])));
    assert!(!qs.is_quorum(&ids(&[1])));
}

#[test]
fn joint_needs_a_majority_of_every_config() {
    let qs = Joint::new(vec![vec![1, 2, 3, 4, 5], vec![6, 7, 8]]);
    assert!(!qs.is_quorum(&ids(&[1, 2, 3])));
    assert!(!qs.is_quorum(&ids(&[1, 2, 6, 7])));
    assert!(qs.is_quorum(&ids(&[1, 2, 3, 6, 7])));
}

#[test]
fn empty_joint_accepts_everything() {
    let qs = Joint::default();
    assert!(qs.is_quorum(&ids(&[])));
}

#[test]
fn set_and_vec_conversions() {
    assert_eq!(vec![1, 5, 9], set_to_vec(&ids(&[9, 1, 5])));
    assert_eq!(ids(&[2, 3]), vec_to_set(&vec![3, 2, 3]));
}

#[test]
fn membership_voters_and_learners() {
    let m = membership(vec![vec![1, 2, 3], vec![3, 4]], &[1, 2, 3, 4, 5, 6]);
    assert_eq!(ids(&[1, 2, 3, 4]), m.voter_ids());
    assert_eq!(ids(&[5, 6]), m.learner_ids());
    assert!(m.is_voter(&4));
    assert!(!m.is_voter(&5));
    assert_eq!(Some(&node("n5")), m.get_node(&5));
    assert_eq!(None, m.get_node(&7));
}

#[test]
fn effective_membership_decides_joint_quorum() {
    let m = membership(vec![vec![1, 2, 3, 4, 5], vec![6, 7, 8]], &[1, 2, 3, 4, 5, 6, 7, 8]);
    let log_id = Some(LogId::new_term_index(2, 9));
    let em = EffectiveMembership::new(log_id, m.clone());
    assert_eq!(&log_id, em.log_id());
    assert_eq!(&m, em.membership());
    assert_eq!(&vec![vec![1, 2, 3, 4, 5], vec![6, 7, 8]], em.get_joint_config());
    assert_eq!(ids(&[1, 2, 3, 4, 5, 6, 7, 8]), *em.voter_ids());
    assert!(em.is_quorum(&ids(&[1, 2, 3, 6, 7])));
    assert!(!em.is_quorum(&ids(&[1, 2, 3, 4, 5, 6])));
    assert!(em.learner_ids().is_empty());
}

#[test]
fn effective_membership_from_stored_and_log_id() {
    let m = membership(vec![vec![1, 2, 3]], &[1, 2, 3, 4]);
    let stored = StoredMembership::new(Some(LogId::new_term_index(1, 1)), m.clone());
    assert_eq!(ids(&[1, 2, 3]), stored.voter_ids());
    assert_eq!(4, stored.nodes().len());
    let em = EffectiveMembership::new_from_stored_membership(stored.clone());
    assert_eq!(&stored, em.stored_membership());
    assert_eq!(ids(&[4]), em.learner_ids());
    assert!(em.is_voter(&2));

    let em2 = EffectiveMembership::from_log_id(&(3u64, 8u64), m);
    assert_eq!(&Some(LogId::new_term_index(3, 8)), em2.log_id());
}
