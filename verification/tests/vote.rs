use std::cmp::Ordering;

use ezraft::vote::opt_vote_less;
use ezraft::vote::CommittedVote;
use ezraft::vote::LeaderId;
use ezraft::vote::RaftLeaderId;
use ezraft::vote::UncommittedVote;
use ezraft::vote::Vote;

#[test]
fn votes_of_greater_term_are_greater() {
    assert_eq!(Some(Ordering::Less), Vote::new(1, 5).cmp_vote(&Vote::new(2, 1)));
    assert_eq!(Some(Ordering::Greater), Vote::new_committed(3, 1).cmp_vote(&Vote::new(2, 9)));
}

#[test]
fn votes_of_same_term_for_different_nodes_are_incomparable() {
    assert_eq!(None, Vote::new(2, 1).cmp_vote(&Vote::new(2, 2)));
    assert_eq!(None, Vote::new_committed(2, 1).cmp_vote(&Vote::new_committed(2, 2)));
    // A committed vote is greater than an uncommitted incomparable one.
    assert_eq!(Some(Ordering::Greater), Vote::new_committed(2, 1).cmp_vote(&Vote::new(2, 2)));
    assert_eq!(Some(Ordering::Less), Vote::new(2, 1).cmp_vote(&Vote::new_committed(2, 2)));
}

#[test]
fn committing_makes_a_vote_greater() {
    let mut v = Vote::new(4, 2);
    let before = v;
    v.commit();
    assert!(v.is_committed());
    assert!(before.lt_vote(&v));
    assert_eq!(Some(Ordering::Equal), v.cmp_vote(&v));
}

#[test]
fn leader_id_without_vote_is_less_than_one_with() {
    let none = LeaderId { term: 3, voted_for: None };
    let some = <LeaderId as RaftLeaderId>::new(3, 1);
    assert_eq!(Some(Ordering::Less), none.cmp_leader_id(&some));
    assert_eq!(Some(Ordering::Greater), some.cmp_leader_id(&none));
    assert_eq!(3, some.to_committed().term);
    assert_eq!(Some(1), some.voted_for());
}

#[test]
fn optional_votes_order() {
    assert!(opt_vote_less(&None, &Some(Vote::new(0, 0))));
    assert!(!opt_vote_less(&None, &None));
    assert!(!opt_vote_less(&Some(Vote::new(1, 0)), &None));
    assert!(opt_vote_less(&Some(Vote::new(1, 0)), &Some(Vote::new(2, 0))));
}

#[test]
fn committed_and_uncommitted_votes() {
    let lid = LeaderId::new_with_default_term(7);
    let u = UncommittedVote::new(lid);
    assert!(!u.is_committed());
    assert_eq!(Vote::from_leader_id(lid, false), u.into_vote());
    assert_eq!(UncommittedVote::default_for(7), u);
    let c = CommittedVote::new(lid);
    assert_eq!(Vote::from_leader_id(lid, true), c.into_vote());
    let v = Vote::new(5, 5);
    assert_eq!(v, v.as_ref_vote().to_owned());
    assert_eq!(Some(Ordering::Equal), v.as_ref_vote().partial_cmp_ref(&v.as_ref_vote()));
}
