//! Leader ids and votes, with the partial order that decides which of two
//! candidates or leaders is newer.

use std::cmp::Ordering;
use vstd::prelude::*;

verus! {

/// The id of a leader in standard Raft: a term and the node voted for in it.
///
/// At most one leader can be established per term, so two leader ids of the same
/// term that voted for different nodes are incomparable.
#[derive(Debug, Clone, Copy, PartialEq, Eq, Hash)]
pub struct LeaderId {
    pub term: u64,
    pub voted_for: Option<u64>,
}

/// The part of a leader id that a log id keeps once the leader is committed:
/// in standard Raft only the term.
#[derive(Debug, Clone, Copy, PartialEq, Eq, Hash, PartialOrd, Ord, Default)]
pub struct CommittedLeaderId {
    pub term: u64,
}

/// A vote: a leader id and whether a quorum granted it.
#[derive(Debug, Clone, Copy, PartialEq, Eq, Hash)]
pub struct Vote {
    pub leader_id: LeaderId,
    pub committed: bool,
}

/// The ordering of two leader ids: by term, then by whether a node was voted for.
pub open spec fn leader_id_cmp(a: LeaderId, b: LeaderId) -> Option<Ordering> {
    if a.term < b.term {
        Some(Ordering::Less)
    } else if a.term > b.term {
        Some(Ordering::Greater)
    } else {
        match (a.voted_for, b.voted_for) {
            (None, None) => Some(Ordering::Equal),
            (Some(_), None) => Some(Ordering::Greater),
            (None, Some(_)) => Some(Ordering::Less),
            (Some(x), Some(y)) => if x == y {
                Some(Ordering::Equal)
            } else {
                None
            },
        }
    }
}

/// The ordering of two booleans, `false < true`.
pub open spec fn bool_cmp(a: bool, b: bool) -> Ordering {
    if a == b {
        Ordering::Equal
    } else if b {
        Ordering::Less
    } else {
        Ordering::Greater
    }
}

/// The ordering of two votes.
///
/// Votes of equal leader ids are ordered by `committed`. Votes of incomparable leader
/// ids can never both be committed, so a committed one is the greater; two
/// uncommitted or two committed ones stay incomparable.
pub open spec fn vote_cmp(a: Vote, b: Vote) -> Option<Ordering> {
    match leader_id_cmp(a.leader_id, b.leader_id) {
        Some(Ordering::Equal) => Some(bool_cmp(a.committed, b.committed)),
        None => {
            if a.committed && !b.committed {
                Some(Ordering::Greater)
            } else if !a.committed && b.committed {
                Some(Ordering::Less)
            } else {
                None
            }
        },
        other => other,
    }
}

/// `a < b` in the vote order.
pub open spec fn vote_lt(a: Vote, b: Vote) -> bool {
    vote_cmp(a, b) == Some(Ordering::Less)
}

/// `a <= b` in the vote order.
pub open spec fn vote_le(a: Vote, b: Vote) -> bool {
    vote_cmp(a, b) == Some(Ordering::Less) || vote_cmp(a, b) == Some(Ordering::Equal)
}

/// `a < b` for optional votes, where no vote is less than every vote.
pub open spec fn opt_vote_lt(a: Option<Vote>, b: Option<Vote>) -> bool {
    match (a, b) {
        (None, Some(_)) => true,
        (Some(x), Some(y)) => vote_lt(x, y),
        _ => false,
    }
}

/// The reverse of an ordering.
pub open spec fn reverse_ordering(o: Option<Ordering>) -> Option<Ordering> {
    match o {
        Some(Ordering::Less) => Some(Ordering::Greater),
        Some(Ordering::Greater) => Some(Ordering::Less),
        other => other,
    }
}

/// A leader id: a term and the node voted for in it.
pub trait RaftLeaderId: Sized {
    /// The term.
    spec fn spec_term(&self) -> u64;

    /// The node voted for, if any.
    spec fn spec_voted_for(&self) -> Option<u64>;

    /// The leader id of `term` that voted for `node_id`.
    fn new(term: u64, node_id: u64) -> (r: Self)
        ensures
            r.spec_term() == term,
            r.spec_voted_for() == Some(node_id),
    ;

    /// The term of this leader id.
    fn get_term(&self) -> (r: u64)
        ensures
            r == self.spec_term(),
    ;

    /// The node voted for, if any.
    fn voted_for(&self) -> (r: Option<u64>)
        ensures
            r == self.spec_voted_for(),
    ;

    /// The committed form of this leader id, which keeps only the term.
    fn to_committed(&self) -> (r: CommittedLeaderId)
        ensures
            r.term == self.spec_term(),
    ;
}

/// The committed form of a leader id, kept in log ids.
pub trait RaftCommittedLeaderId {
    /// The term of the leader.
    spec fn spec_committed_term(&self) -> u64;

    /// The term of the leader.
    fn committed_term(&self) -> (r: u64)
        ensures
            r == self.spec_committed_term(),
    ;
}

impl RaftCommittedLeaderId for CommittedLeaderId {
    open spec fn spec_committed_term(&self) -> u64 {
        self.term
    }

    fn committed_term(&self) -> (r: u64) {
        self.term
    }
}

impl RaftLeaderId for LeaderId {
    open spec fn spec_term(&self) -> u64 {
        self.term
    }

    open spec fn spec_voted_for(&self) -> Option<u64> {
        self.voted_for
    }

    fn new(term: u64, node_id: u64) -> (r: Self) {
        LeaderId { term, voted_for: Some(node_id) }
    }

    fn get_term(&self) -> (r: u64) {
        self.term
    }

    fn voted_for(&self) -> (r: Option<u64>) {
        self.voted_for
    }

    fn to_committed(&self) -> (r: CommittedLeaderId) {
        CommittedLeaderId { term: self.term }
    }
}

impl LeaderId {
    /// A leader id of the initial term that voted for `node_id`.
    pub fn new_with_default_term(node_id: u64) -> (r: Self)
        ensures
            r.term == 0,
            r.voted_for == Some(node_id),
    {
        LeaderId { term: 0, voted_for: Some(node_id) }
    }

    /// Compares two leader ids; `None` when they are incomparable.
    pub fn cmp_leader_id(&self, other: &LeaderId) -> (r: Option<Ordering>)
        ensures
            r == leader_id_cmp(*self, *other),
    {
        if self.term < other.term {
            Some(Ordering::Less)
        } else if self.term > other.term {
            Some(Ordering::Greater)
        } else {
            match (self.voted_for, other.voted_for) {
                (None, None) => Some(Ordering::Equal),
                (Some(_), None) => Some(Ordering::Greater),
                (None, Some(_)) => Some(Ordering::Less),
                (Some(x), Some(y)) => if x == y {
                    Some(Ordering::Equal)
                } else {
                    None
                },
            }
        }
    }
}

impl CommittedLeaderId {
    /// The committed leader id of `term`.
    pub fn new(term: u64) -> (r: Self)
        ensures
            r.term == term,
    {
        CommittedLeaderId { term }
    }
}

impl Vote {
    /// An uncommitted vote of `term` for `node_id`.
    pub fn new(term: u64, node_id: u64) -> (r: Self)
        ensures
            r.leader_id.term == term,
            r.leader_id.voted_for == Some(node_id),
            !r.committed,
    {
        Vote { leader_id: LeaderId::new(term, node_id), committed: false }
    }

    /// A committed vote of `term` for `node_id`.
    pub fn new_committed(term: u64, node_id: u64) -> (r: Self)
        ensures
            r.leader_id.term == term,
            r.leader_id.voted_for == Some(node_id),
            r.committed,
    {
        Vote { leader_id: LeaderId::new(term, node_id), committed: true }
    }

    /// A vote built from a leader id.
    pub fn from_leader_id(leader_id: LeaderId, committed: bool) -> (r: Self)
        ensures
            r.leader_id == leader_id,
            r.committed == committed,
    {
        Vote { leader_id, committed }
    }

    /// The leader id of this vote.
    pub fn leader_id(&self) -> (r: LeaderId)
        ensures
            r == self.leader_id,
    {
        self.leader_id
    }

    /// Whether a quorum granted this vote.
    pub fn is_committed(&self) -> (r: bool)
        ensures
            r == self.committed,
    {
        self.committed
    }

    /// This vote, marked as granted by a quorum.
    pub fn commit(&mut self)
        ensures
            final(self).leader_id == old(self).leader_id,
            final(self).committed,
    {
        self.committed = true;
    }

    /// Compares two votes; `None` when they are incomparable.
    pub fn cmp_vote(&self, other: &Vote) -> (r: Option<Ordering>)
        ensures
            r == vote_cmp(*self, *other),
    {
        match self.leader_id.cmp_leader_id(&other.leader_id) {
            Some(Ordering::Equal) => {
                if self.committed == other.committed {
                    Some(Ordering::Equal)
                } else if other.committed {
                    Some(Ordering::Less)
                } else {
                    Some(Ordering::Greater)
                }
            },
            None => {
                if self.committed && !other.committed {
                    Some(Ordering::Greater)
                } else if !self.committed && other.committed {
                    Some(Ordering::Less)
                } else {
                    None
                }
            },
            Some(Ordering::Less) => Some(Ordering::Less),
            Some(Ordering::Greater) => Some(Ordering::Greater),
        }
    }

    /// Whether this vote is strictly less than `other`.
    pub fn lt_vote(&self, other: &Vote) -> (r: bool)
        ensures
            r == vote_lt(*self, *other),
    {
        match self.cmp_vote(other) {
            Some(Ordering::Less) => true,
            _ => false,
        }
    }
}

/// Whether optional vote `a` is strictly less than `b`; no vote is the least.
pub fn opt_vote_less(a: &Option<Vote>, b: &Option<Vote>) -> (r: bool)
    ensures
        r == opt_vote_lt(*a, *b),
{
    match (a, b) {
        (None, Some(_)) => true,
        (Some(x), Some(y)) => x.lt_vote(y),
        _ => false,
    }
}

/// Law: comparing two leader ids the other way round gives the reverse ordering.
pub proof fn lemma_leader_id_cmp_antisymmetric(a: LeaderId, b: LeaderId)
    ensures
        leader_id_cmp(b, a) == reverse_ordering(leader_id_cmp(a, b)),
{
}

/// Law: every vote is equal to itself.
pub proof fn lemma_vote_cmp_reflexive(a: Vote)
    ensures
        vote_cmp(a, a) == Some(Ordering::Equal),
{
}

/// Law: comparing in the other direction gives the reverse ordering.
pub proof fn lemma_vote_cmp_antisymmetric(a: Vote, b: Vote)
    ensures
        vote_cmp(b, a) == reverse_ordering(vote_cmp(a, b)),
{
}

/// Law: two votes compare as equal exactly when they are the same vote.
pub proof fn lemma_vote_cmp_equal_iff_same(a: Vote, b: Vote)
    ensures
        vote_cmp(a, b) == Some(Ordering::Equal) <==> a == b,
{
}

/// Law: the strict vote order is transitive.
pub proof fn lemma_vote_lt_transitive(a: Vote, b: Vote, c: Vote)
    requires
        vote_lt(a, b),
        vote_lt(b, c),
    ensures
        vote_lt(a, c),
{
}

/// Law: the non-strict vote order is transitive.
pub proof fn lemma_vote_le_transitive(a: Vote, b: Vote, c: Vote)
    requires
        vote_le(a, b),
        vote_le(b, c),
    ensures
        vote_le(a, c),
{
}

/// Law: granting a vote makes it greater than the same vote not yet granted.
pub proof fn lemma_committed_vote_greater(a: Vote)
    requires
        !a.committed,
    ensures
        vote_lt(a, Vote { leader_id: a.leader_id, committed: true }),
{
}

/// Law: a committed vote is comparable with every uncommitted vote, and not less
/// than it.
pub proof fn lemma_committed_comparable_with_uncommitted(a: Vote, b: Vote)
    requires
        a.committed,
        !b.committed,
    ensures
        vote_cmp(a, b).is_some(),
        vote_cmp(a, b) != Some(Ordering::Less) || a.leader_id.term < b.leader_id.term
            || leader_id_cmp(a.leader_id, b.leader_id) == Some(Ordering::Less),
{
}

/// Law: a vote of a greater term is greater, whatever either vote's state.
pub proof fn lemma_greater_term_greater_vote(a: Vote, b: Vote)
    requires
        a.leader_id.term < b.leader_id.term,
    ensures
        vote_lt(a, b),
{
}

/// A vote granted by a quorum: its leader is established.
#[derive(Debug, Clone, Copy, PartialEq, Eq, Hash)]
pub struct CommittedVote {
    pub leader_id: LeaderId,
}

impl CommittedVote {
    /// The committed vote of `leader_id`.
    pub fn new(leader_id: LeaderId) -> (r: Self)
        ensures
            r.leader_id == leader_id,
    {
        CommittedVote { leader_id }
    }

    /// The leader id of this vote.
    pub fn leader_id(&self) -> (r: LeaderId)
        ensures
            r == self.leader_id,
    {
        self.leader_id
    }

    /// This vote as a plain vote, marked committed.
    pub open spec fn into_vote_spec(self) -> Vote {
        Vote { leader_id: self.leader_id, committed: true }
    }

    /// This vote as a plain vote, marked committed.
    pub fn into_vote(self) -> (r: Vote)
        ensures
            r == self.into_vote_spec(),
    {
        Vote { leader_id: self.leader_id, committed: true }
    }
}

/// A vote not yet granted by a quorum.
#[derive(Debug, Clone, Copy, PartialEq, Eq, Hash)]
pub struct UncommittedVote {
    pub leader_id: LeaderId,
}

impl UncommittedVote {
    /// The uncommitted vote of `leader_id`.
    pub fn new(leader_id: LeaderId) -> (r: Self)
        ensures
            r.leader_id == leader_id,
    {
        UncommittedVote { leader_id }
    }

    /// The uncommitted vote of the initial term for node `node_id`.
    pub fn default_for(node_id: u64) -> (r: Self)
        ensures
            r.leader_id.term == 0,
            r.leader_id.voted_for == Some(node_id),
    {
        UncommittedVote { leader_id: LeaderId::new_with_default_term(node_id) }
    }

    /// An uncommitted vote of `leader_id`; the flag is ignored, as this vote is never
    /// committed.
    pub fn from_leader_id(leader_id: LeaderId, committed: bool) -> (r: Self)
        ensures
            r.leader_id == leader_id,
    {
        UncommittedVote { leader_id }
    }

    /// This vote as a plain vote, marked uncommitted.
    pub fn into_vote(self) -> (r: Vote)
        ensures
            r.leader_id == self.leader_id,
            !r.committed,
    {
        Vote { leader_id: self.leader_id, committed: false }
    }

    /// The leader id of this vote.
    pub fn leader_id(&self) -> (r: LeaderId)
        ensures
            r == self.leader_id,
    {
        self.leader_id
    }

    /// Always `false`.
    pub fn is_committed(&self) -> (r: bool)
        ensures
            !r,
    {
        false
    }
}

/// A vote that borrows its leader id.
#[derive(Debug, Clone, Copy, PartialEq, Eq)]
pub struct RefVote<'a> {
    pub leader_id: &'a LeaderId,
    pub committed: bool,
}

impl<'a> RefVote<'a> {
    /// The vote of `leader_id`, committed or not.
    pub fn new(leader_id: &'a LeaderId, committed: bool) -> (r: Self)
        ensures
            *r.leader_id == *leader_id,
            r.committed == committed,
    {
        RefVote { leader_id, committed }
    }

    /// Whether this vote is committed.
    pub fn is_committed(&self) -> (r: bool)
        ensures
            r == self.committed,
    {
        self.committed
    }

    /// The owned vote.
    pub fn to_owned(&self) -> (r: Vote)
        ensures
            r.leader_id == *self.leader_id,
            r.committed == self.committed,
    {
        Vote { leader_id: *self.leader_id, committed: self.committed }
    }

    /// Compares two borrowed votes as the owned votes compare.
    pub fn partial_cmp_ref(&self, other: &RefVote<'a>) -> (r: Option<Ordering>)
        ensures
            r == vote_cmp(
                Vote { leader_id: *self.leader_id, committed: self.committed },
                Vote { leader_id: *other.leader_id, committed: other.committed },
            ),
    {
        self.to_owned().cmp_vote(&other.to_owned())
    }
}

impl Vote {
    /// The borrowed form of this vote.
    pub fn as_ref_vote(&self) -> (r: RefVote<'_>)
        ensures
            *r.leader_id == self.leader_id,
            r.committed == self.committed,
    {
        RefVote { leader_id: &self.leader_id, committed: self.committed }
    }
}

} // verus!
