//! The progress of an election as seen by a candidate.

use std::collections::BTreeSet;
use vstd::prelude::*;
use crate::quorum::{is_majority, is_upward_closed, lemma_majorities_intersect, QuorumSet};
use crate::vote::{opt_vote_less, opt_vote_lt, Vote};

verus! {

broadcast use vstd::std_specs::btree::group_btree_axioms, vstd::laws_cmp::group_laws_cmp;

/// Why a voter rejected a vote request.
#[derive(Debug, Clone, Copy, PartialEq, Eq)]
pub enum Rejection {
    /// There is still an active leader: the timeout since its last heartbeat has not
    /// expired.
    StillHasLeader,
    /// The vote is not greater than or equal to the voter's own.
    Vote,
    /// The candidate's last log id is less than the voter's.
    LastLogId,
}

/// What a candidate does next: it has won, keeps waiting, or steps down because
/// either its vote or its log is too small to ever win.
#[derive(Debug, Clone, Copy, PartialEq, Eq)]
pub enum VotingResult {
    Granted,
    Continue,
    VoteTooSmall(Option<Vote>),
    LogTooSmall(Option<Vote>),
}

/// The state of a round of voting.
#[derive(Debug, Clone)]
pub struct Voting {
    /// Voters that granted this vote.
    pub granted_by: BTreeSet<u64>,
    /// Voters that have not rejected this vote.
    pub can_grant: BTreeSet<u64>,
    /// Voters not known to have a greater last log id.
    pub log_less_or_equal: BTreeSet<u64>,
    /// The greatest vote seen in a rejection.
    pub greatest_vote: Option<Vote>,
}

/// The decision of a candidate, given which voters granted, which can still grant,
/// which have a log no greater than its own, and the greatest vote it saw.
pub open spec fn voting_result_of<QS: QuorumSet>(
    qs: QS,
    granted_by: Set<u64>,
    can_grant: Set<u64>,
    log_less_or_equal: Set<u64>,
    greatest_vote: Option<Vote>,
) -> VotingResult {
    if qs.spec_is_quorum(granted_by) {
        VotingResult::Granted
    } else if !qs.spec_is_quorum(log_less_or_equal) {
        VotingResult::LogTooSmall(greatest_vote)
    } else if !qs.spec_is_quorum(can_grant) {
        VotingResult::VoteTooSmall(greatest_vote)
    } else {
        VotingResult::Continue
    }
}

/// The state of a round of voting as sets: who granted, who can still grant, whose
/// log is no greater than the candidate's, and the greatest vote seen.
pub type VotingView = (Set<u64>, Set<u64>, Set<u64>, Option<Vote>);

impl View for Voting {
    type V = VotingView;

    open spec fn view(&self) -> VotingView {
        (self.granted_by@, self.can_grant@, self.log_less_or_equal@, self.greatest_vote)
    }
}

/// The state after `target` granted the vote.
pub open spec fn granted_step(v: VotingView, target: u64) -> VotingView {
    (v.0.insert(target), v.1, v.2, v.3)
}

/// The state after `target` rejected the vote for `rejection`, answering `resp_vote`.
pub open spec fn rejected_step(v: VotingView, target: u64, rejection: Rejection, resp_vote: Vote) -> VotingView {
    (
        v.0,
        v.1.remove(target),
        if rejection is LastLogId {
            v.2.remove(target)
        } else {
            v.2
        },
        if opt_vote_lt(v.3, Some(resp_vote)) {
            Some(resp_vote)
        } else {
            v.3
        },
    )
}

/// An answer to a vote request: a grant, or a rejection with its reason and the
/// voter's own vote.
#[derive(Debug, Clone, Copy, PartialEq, Eq)]
pub enum VotingEvent {
    Grant(u64),
    Reject(u64, Rejection, Vote),
}

/// The state after the answers `events` arrive in order.
pub open spec fn voting_after(v: VotingView, events: Seq<VotingEvent>) -> VotingView
    decreases events.len(),
{
    if events.len() == 0 {
        v
    } else {
        let prev = voting_after(v, events.drop_last());
        match events.last() {
            VotingEvent::Grant(t) => granted_step(prev, t),
            VotingEvent::Reject(t, rj, rv) => rejected_step(prev, t, rj, rv),
        }
    }
}

impl Voting {
    /// The decision this state leads to under quorum set `qs`.
    pub open spec fn spec_result<QS: QuorumSet>(&self, qs: QS) -> VotingResult {
        voting_result_of(
            qs,
            self.granted_by@,
            self.can_grant@,
            self.log_less_or_equal@,
            self.greatest_vote,
        )
    }

    /// A new round of voting among `voter_ids`: nobody granted yet, everybody can.
    pub fn new(voter_ids: &[u64]) -> (r: Self)
        ensures
            r.granted_by@ == Set::<u64>::empty(),
            r.can_grant@ == voter_ids@.to_set(),
            r.log_less_or_equal@ == voter_ids@.to_set(),
            r.greatest_vote.is_none(),
    {
        let mut ids: BTreeSet<u64> = BTreeSet::new();
        let mut i: usize = 0;
        while i < voter_ids.len()
            invariant
                i <= voter_ids@.len(),
                ids@ == voter_ids@.take(i as int).to_set(),
            decreases voter_ids@.len() - i,
        {
            ids.insert(voter_ids[i]);
            proof {
                assert(voter_ids@.take(i + 1) =~= voter_ids@.take(i as int).push(voter_ids@[i as int]));
                voter_ids@.take(i as int).lemma_push_to_set_commute(voter_ids@[i as int]);
            }
            i = i + 1;
        }
        assert(voter_ids@.take(voter_ids@.len() as int) =~= voter_ids@);
        Voting {
            granted_by: BTreeSet::new(),
            can_grant: ids.clone(),
            log_less_or_equal: ids,
            greatest_vote: None,
        }
    }

    /// Records that `target` granted this vote.
    pub fn grant_by(&mut self, target: u64)
        ensures
            final(self)@ == granted_step(old(self)@, target),
            final(self).granted_by@ == old(self).granted_by@.insert(target),
            final(self).can_grant@ == old(self).can_grant@,
            final(self).log_less_or_equal@ == old(self).log_less_or_equal@,
            final(self).greatest_vote == old(self).greatest_vote,
    {
        self.granted_by.insert(target);
    }

    /// Records that `target` rejected this vote for `rejection`, answering with its
    /// own vote `resp_vote`.
    ///
    /// The voter can no longer grant; a voter with a greater log also rules itself
    /// out of every quorum that could elect this candidate. The greatest vote seen is
    /// replaced by `resp_vote` only when that one is strictly greater.
    pub fn reject_by(&mut self, target: u64, rejection: Rejection, resp_vote: Vote)
        ensures
            final(self)@ == rejected_step(old(self)@, target, rejection, resp_vote),
            final(self).greatest_vote == if opt_vote_lt(old(self).greatest_vote, Some(resp_vote)) {
                Some(resp_vote)
            } else {
                old(self).greatest_vote
            },
            final(self).granted_by@ == old(self).granted_by@,
            final(self).can_grant@ == old(self).can_grant@.remove(target),
            final(self).log_less_or_equal@ == if rejection is LastLogId {
                old(self).log_less_or_equal@.remove(target)
            } else {
                old(self).log_less_or_equal@
            },
    {
        if opt_vote_less(&self.greatest_vote, &Some(resp_vote)) {
            self.greatest_vote = Some(resp_vote);
        }

        self.can_grant.remove(&target);

        match rejection {
            Rejection::StillHasLeader => {},
            Rejection::Vote => {},
            Rejection::LastLogId => {
                self.log_less_or_equal.remove(&target);
            },
        }
    }

    /// Decides what the candidate does next under quorum set `qs`.
    ///
    /// Granted once the granting voters form a quorum; otherwise the candidate gives up
    /// when the voters whose log is no greater than its own cannot form a quorum, or
    /// when the voters that can still grant cannot; else it keeps waiting.
    pub fn get_voting_result<QS: QuorumSet>(&self, qs: &QS) -> (r: VotingResult)
        ensures
            r == self.spec_result(*qs),
    {
        if qs.is_quorum(&self.granted_by) {
            return VotingResult::Granted;
        }
        let can_be_leader = qs.is_quorum(&self.log_less_or_equal);
        if !can_be_leader {
            return VotingResult::LogTooSmall(self.greatest_vote);
        }
        let can_be_granted_by_a_quorum = qs.is_quorum(&self.can_grant);
        if !can_be_granted_by_a_quorum {
            return VotingResult::VoteTooSmall(self.greatest_vote);
        }
        VotingResult::Continue
    }
}

/// The granting voters after any answers still include those before, and stay a
/// finite set.
proof fn lemma_granted_grows(v: VotingView, events: Seq<VotingEvent>)
    requires
        v.0.finite(),
    ensures
        v.0.subset_of(voting_after(v, events).0),
        voting_after(v, events).0.finite(),
    decreases events.len(),
{
    if events.len() > 0 {
        lemma_granted_grows(v, events.drop_last());
    }
}

/// Law: once the granting voters form a quorum of an upward-closed quorum set, the
/// candidate stays elected whatever grants and rejections arrive after.
pub proof fn lemma_granted_stays_granted<QS: QuorumSet>(qs: QS, v: VotingView, events: Seq<VotingEvent>)
    requires
        is_upward_closed(qs),
        v.0.finite(),
        voting_result_of(qs, v.0, v.1, v.2, v.3) == VotingResult::Granted,
    ensures
        ({
            let w = voting_after(v, events);
            voting_result_of(qs, w.0, w.1, w.2, w.3) == VotingResult::Granted
        }),
{
    let w = voting_after(v, events);
    lemma_granted_grows(v, events);
    assert(qs.spec_is_quorum(v.0));
    assert(qs.spec_is_quorum(w.0));
}

/// Law: a rejection never makes the greatest vote seen smaller, and afterwards the
/// rejecting voter's vote is not greater than it.
pub proof fn lemma_greatest_vote_monotone(old_greatest: Option<Vote>, resp_vote: Vote)
    ensures
        ({
            let new_greatest = if opt_vote_lt(old_greatest, Some(resp_vote)) {
                Some(resp_vote)
            } else {
                old_greatest
            };
            &&& !opt_vote_lt(new_greatest, old_greatest)
            &&& !opt_vote_lt(new_greatest, Some(resp_vote))
        }),
{
}

/// Law: two candidates that each won a majority of one config were granted by a
/// common voter, so a voter that grants at most one vote per term elects at most one
/// leader per term.
pub proof fn lemma_two_winners_share_a_voter(config: Seq<u64>, granted_a: Set<u64>, granted_b: Set<u64>)
    requires
        granted_a.finite(),
        granted_b.finite(),
        is_majority(config, granted_a),
        is_majority(config, granted_b),
    ensures
        exists|x: u64| granted_a.contains(x) && granted_b.contains(x),
{
    lemma_majorities_intersect(config, granted_a, granted_b);
}

} // verus!
