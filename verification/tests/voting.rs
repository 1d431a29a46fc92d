use ezraft::vote::Vote;
use ezraft::voting::Rejection;
use ezraft::voting::Voting;
use ezraft::voting::VotingResult;

fn voting() -> Voting {
    Voting::new(&[1, 2, 3, 4, 5])
}

fn qs() -> Vec<u64> {
    vec![1, 2, 3, 4, 5]
}

fn vote(term: u64, node_id: u64) -> Vote {
    Vote::new(term, node_id)
}

#[test]
fn test_voting_granted() {
    let mut v = voting();
    v.grant_by(1);
    v.grant_by(2);
    v.grant_by(3);
    v.reject_by(4, Rejection::LastLogId, vote(1, 2));
    v.reject_by(5, Rejection::Vote, vote(1, 2));

    assert_eq!(VotingResult::Granted, v.get_voting_result(&qs()));
}

#[test]
fn test_voting_continue_when_there_is_leader() {
    let mut v = voting();
    v.grant_by(1);
    v.grant_by(2);
    v.reject_by(3, Rejection::StillHasLeader, vote(1, 2));
    v.reject_by(4, Rejection::StillHasLeader, vote(1, 2));

    assert_eq!(
        VotingResult::Continue,
        v.get_voting_result(&qs()),
        "there is already an active leader"
    );
}

#[test]
fn test_voting_continue() {
    let mut v = voting();
    v.grant_by(1);
    v.grant_by(2);
    v.reject_by(3, Rejection::LastLogId, vote(1, 2));
    v.reject_by(4, Rejection::Vote, vote(1, 2));

    assert_eq!(
        VotingResult::Continue,
        v.get_voting_result(&qs()),
        "a granting quorum can be 1,2,5"
    );
}

#[test]
fn test_voting_restart() {
    let mut v = voting();
    v.grant_by(1);
    v.grant_by(2);
    v.reject_by(3, Rejection::LastLogId, vote(1, 2));
    v.reject_by(4, Rejection::Vote, vote(3, 2));
    v.reject_by(5, Rejection::Vote, vote(2, 2));

    assert_eq!(
        VotingResult::VoteTooSmall(Some(vote(3, 2))),
        v.get_voting_result(&qs()),
        "there is greater log, but it still can be a leader"
    );
}

#[test]
fn test_voting_stop() {
    let mut v = voting();
    v.grant_by(1);
    v.grant_by(2);
    v.reject_by(3, Rejection::LastLogId, vote(3, 2));
    v.reject_by(4, Rejection::LastLogId, vote(1, 2));
    v.reject_by(5, Rejection::LastLogId, vote(2, 2));

    assert_eq!(
        VotingResult::LogTooSmall(Some(vote(3, 2))),
        v.get_voting_result(&qs()),
        "can never be a leader"
    );
}

#[test]
fn voting_new_starts_with_every_voter_able_to_grant() {
    let v = Voting::new(&[3, 1, 3]);
    assert!(v.granted_by.is_empty());
    assert_eq!(vec![1, 3], v.can_grant.iter().copied().collect::<Vec<_>>());
    assert_eq!(vec![1, 3], v.log_less_or_equal.iter().copied().collect::<Vec<_>>());
    assert_eq!(None, v.greatest_vote);
}

#[test]
fn reject_keeps_greatest_vote_when_incomparable() {
    let mut v = voting();
    v.reject_by(1, Rejection::Vote, vote(4, 1));
    // Same term, another node: incomparable, so the greatest stays.
    v.reject_by(2, Rejection::Vote, vote(4, 2));
    assert_eq!(Some(vote(4, 1)), v.greatest_vote);
    // A committed vote of the same term beats an uncommitted incomparable one.
    v.reject_by(3, Rejection::Vote, Vote::new_committed(4, 2));
    assert_eq!(Some(Vote::new_committed(4, 2)), v.greatest_vote);
    assert!(!v.can_grant.contains(&3));
    assert!(v.log_less_or_equal.contains(&3));
}

#[test]
fn granted_stays_granted_after_more_grants() {
    let mut v = voting();
    for id in [1, 2, 3] {
        v.grant_by(id);
    }
    assert_eq!(VotingResult::Granted, v.get_voting_result(&qs()));
    v.grant_by(4);
    assert_eq!(VotingResult::Granted, v.get_voting_result(&qs()));
}

#[test]
fn granted_vote_stays_granted_after_more_answers() {
    let mut v = voting();
    v.grant_by(1);
    v.grant_by(2);
    v.grant_by(3);
    assert_eq!(VotingResult::Granted, v.get_voting_result(&qs()));
    v.reject_by(4, Rejection::LastLogId, vote(9, 4));
    v.reject_by(5, Rejection::Vote, vote(9, 5));
    v.grant_by(1);
    assert_eq!(VotingResult::Granted, v.get_voting_result(&qs()));
}
