//! What a follower or learner has accepted: the leader that replicated its log and
//! the last log id it holds.

use std::cmp::Ordering;
use vstd::prelude::*;
use crate::log_id::{lemma_log_id_cmp_antisymmetric, opt_log_id_cmp, opt_log_id_compare, LogId};
use crate::vote::{lemma_leader_id_cmp_antisymmetric, leader_id_cmp, reverse_ordering, LeaderId};

verus! {

/// A value accepted by an acceptor: the leader that proposed and replicated it, and
/// the last log id, which stands for the whole consecutive log.
#[derive(Debug, Clone, Copy, PartialEq, Eq)]
pub struct Accepted {
    pub leader_id: LeaderId,
    pub last_log_id: Option<LogId>,
}

impl Accepted {
    /// The value `log_id` accepted from leader `leader_id`.
    pub fn new(leader_id: LeaderId, log_id: Option<LogId>) -> (r: Self)
        ensures
            r.leader_id == leader_id,
            r.last_log_id == log_id,
    {
        Accepted { leader_id, last_log_id: log_id }
    }

    /// Accepts a newer value from the same leader.
    pub fn accept_value(&mut self, value: Option<LogId>)
        ensures
            final(self).leader_id == old(self).leader_id,
            final(self).last_log_id == value,
    {
        self.last_log_id = value;
    }
}

/// The ordering of accepted values: a value replicated by a newer leader is greater;
/// values of the same leader are ordered by their last log id.
pub open spec fn accepted_cmp(a: Accepted, b: Accepted) -> Option<Ordering> {
    match leader_id_cmp(a.leader_id, b.leader_id) {
        Some(Ordering::Equal) => Some(opt_log_id_cmp(a.last_log_id, b.last_log_id)),
        other => other,
    }
}

impl Accepted {
    /// Compares two accepted values; `None` when their leaders are incomparable.
    pub fn cmp_accepted(&self, other: &Accepted) -> (r: Option<Ordering>)
        ensures
            r == accepted_cmp(*self, *other),
            leader_id_cmp(self.leader_id, other.leader_id) == Some(Ordering::Greater) ==> r == Some(
                Ordering::Greater,
            ),
            leader_id_cmp(self.leader_id, other.leader_id) == Some(Ordering::Less) ==> r == Some(
                Ordering::Less,
            ),
    {
        match self.leader_id.cmp_leader_id(&other.leader_id) {
            Some(Ordering::Equal) => Some(opt_log_id_compare(&self.last_log_id, &other.last_log_id)),
            Some(Ordering::Less) => Some(Ordering::Less),
            Some(Ordering::Greater) => Some(Ordering::Greater),
            None => None,
        }
    }
}

/// Law: a value replicated by a newer leader is greater, whatever the logs.
pub proof fn lemma_newer_leader_accepted_greater(a: Accepted, b: Accepted)
    requires
        leader_id_cmp(a.leader_id, b.leader_id) == Some(Ordering::Less),
    ensures
        accepted_cmp(a, b) == Some(Ordering::Less),
        accepted_cmp(b, a) == Some(Ordering::Greater),
{
}

/// Law: comparing two accepted values the other way round gives the reverse ordering.
pub proof fn lemma_accepted_cmp_antisymmetric(a: Accepted, b: Accepted)
    ensures
        accepted_cmp(b, a) == reverse_ordering(accepted_cmp(a, b)),
{
    lemma_leader_id_cmp_antisymmetric(a.leader_id, b.leader_id);
    lemma_log_id_cmp_antisymmetric(a.last_log_id, b.last_log_id);
}

/// Law: values of the same leader are ordered by their last log id.
pub proof fn lemma_same_leader_accepted_by_log(a: Accepted, b: Accepted)
    requires
        a.leader_id == b.leader_id,
    ensures
        accepted_cmp(a, b) == Some(opt_log_id_cmp(a.last_log_id, b.last_log_id)),
{
}

/// An accepted value whose parts are borrowed.
#[derive(Debug, Clone, Copy)]
pub struct AcceptedBorrow<'a> {
    pub leader_id: &'a LeaderId,
    pub last_log_id: &'a Option<LogId>,
}

impl<'a> AcceptedBorrow<'a> {
    /// The value `value` accepted from leader `vballot`.
    pub fn new(vballot: &'a LeaderId, value: &'a Option<LogId>) -> (r: Self)
        ensures
            *r.leader_id == *vballot,
            *r.last_log_id == *value,
    {
        AcceptedBorrow { leader_id: vballot, last_log_id: value }
    }
}

} // verus!
