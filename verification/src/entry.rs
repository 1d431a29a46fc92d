//! Log entries and their payloads.

use vstd::prelude::*;
use crate::log_id::{EzLogId, LogId, RefLogId};
use crate::membership::{BasicNode, Membership};
use crate::vote::CommittedLeaderId;

verus! {

/// What a log entry carries: nothing, an application request, or a membership.
#[derive(Debug, PartialEq, Eq)]
pub enum EntryPayload<D> {
    Blank,
    Normal(D),
    Membership(Membership),
}

/// Whether payload `b` is a copy of payload `a`: the same variant, a request that is a
/// clone of `a`'s, or a membership equal to `a`'s.
pub open spec fn payload_cloned<D: Clone>(a: EntryPayload<D>, b: EntryPayload<D>) -> bool {
    match (a, b) {
        (EntryPayload::Blank, EntryPayload::Blank) => true,
        (EntryPayload::Normal(x), EntryPayload::Normal(y)) => cloned::<D>(x, y),
        (EntryPayload::Membership(x), EntryPayload::Membership(y)) => x@ == y@,
        _ => false,
    }
}

impl<D: Clone> Clone for EntryPayload<D> {
    fn clone(&self) -> (r: Self)
        ensures
            payload_cloned(*self, r),
    {
        match self {
            EntryPayload::Blank => EntryPayload::Blank,
            EntryPayload::Normal(d) => EntryPayload::Normal(d.clone()),
            EntryPayload::Membership(m) => EntryPayload::Membership(m.clone()),
        }
    }
}

/// A payload that may carry a membership.
pub trait RaftPayload {
    /// The membership carried, if any.
    spec fn spec_membership(&self) -> Option<(Seq<Set<u64>>, Map<u64, BasicNode>)>;

    /// A copy of the membership carried, if any.
    fn get_membership(&self) -> (r: Option<Membership>)
        ensures
            r.is_some() == self.spec_membership().is_some(),
            r matches Some(m) ==> m@ == self.spec_membership().unwrap(),
    ;
}

impl<D> RaftPayload for EntryPayload<D> {
    open spec fn spec_membership(&self) -> Option<(Seq<Set<u64>>, Map<u64, BasicNode>)> {
        match self {
            EntryPayload::Membership(m) => Some(m@),
            _ => None,
        }
    }

    fn get_membership(&self) -> (r: Option<Membership>) {
        match self {
            EntryPayload::Membership(m) => Some(m.clone()),
            _ => None,
        }
    }
}

/// A log entry: a log id and a payload.
pub trait RaftEntry<D>: Sized {
    /// The log id of the entry.
    spec fn spec_log_id(&self) -> LogId;

    /// The payload of the entry.
    spec fn spec_payload(&self) -> EntryPayload<D>;

    /// The entry at `log_id` carrying `payload`.
    fn new(log_id: LogId, payload: EntryPayload<D>) -> (r: Self)
        ensures
            r.spec_log_id() == log_id,
            r.spec_payload() == payload,
    ;

    /// The leader id and the index of the entry's log id.
    fn log_id_parts(&self) -> (r: (CommittedLeaderId, u64))
        ensures
            r.0 == self.spec_log_id().leader_id,
            r.1 == self.spec_log_id().index,
    ;

    /// Moves the entry to log id `new`, keeping its payload.
    fn set_log_id(&mut self, new: LogId)
        ensures
            final(self).spec_log_id() == new,
            final(self).spec_payload() == old(self).spec_payload(),
    ;
}

/// A log entry whose log id is a `LogId`.
#[derive(Debug, PartialEq, Eq)]
pub struct Entry<D> {
    pub log_id: LogId,
    pub payload: EntryPayload<D>,
}

impl<D: Clone> Clone for Entry<D> {
    fn clone(&self) -> (r: Self)
        ensures
            r.log_id == self.log_id,
            payload_cloned(self.payload, r.payload),
    {
        Entry { log_id: self.log_id, payload: self.payload.clone() }
    }
}

impl<D> Entry<D> {
    /// This entry itself.
    pub fn as_ref(&self) -> (r: &Entry<D>)
        ensures
            *r == *self,
    {
        self
    }

    /// A borrowed view of this entry's log id.
    pub fn ref_log_id(&self) -> (r: RefLogId<'_>)
        ensures
            *r.leader_id == self.log_id.leader_id,
            r.index == self.log_id.index,
    {
        RefLogId::new(&self.log_id.leader_id, self.log_id.index)
    }
}

impl<D> RaftPayload for Entry<D> {
    open spec fn spec_membership(&self) -> Option<(Seq<Set<u64>>, Map<u64, BasicNode>)> {
        self.payload.spec_membership()
    }

    fn get_membership(&self) -> (r: Option<Membership>) {
        self.payload.get_membership()
    }
}

impl<D> RaftEntry<D> for Entry<D> {
    open spec fn spec_log_id(&self) -> LogId {
        self.log_id
    }

    open spec fn spec_payload(&self) -> EntryPayload<D> {
        self.payload
    }

    fn new(log_id: LogId, payload: EntryPayload<D>) -> (r: Self) {
        Entry { log_id, payload }
    }

    fn log_id_parts(&self) -> (r: (CommittedLeaderId, u64)) {
        (self.log_id.leader_id, self.log_id.index)
    }

    fn set_log_id(&mut self, new: LogId) {
        self.log_id = new;
    }
}

/// A log entry whose log id is a plain `(term, index)` pair.
#[derive(Debug, PartialEq, Eq)]
pub struct EzEntry<D> {
    pub log_id: EzLogId,
    pub payload: EntryPayload<D>,
}

impl<D: Clone> Clone for EzEntry<D> {
    fn clone(&self) -> (r: Self)
        ensures
            r.log_id == self.log_id,
            payload_cloned(self.payload, r.payload),
    {
        EzEntry { log_id: self.log_id, payload: self.payload.clone() }
    }
}

impl<D> RaftPayload for EzEntry<D> {
    open spec fn spec_membership(&self) -> Option<(Seq<Set<u64>>, Map<u64, BasicNode>)> {
        self.payload.spec_membership()
    }

    fn get_membership(&self) -> (r: Option<Membership>) {
        self.payload.get_membership()
    }
}

impl<D> RaftEntry<D> for EzEntry<D> {
    open spec fn spec_log_id(&self) -> LogId {
        LogId { leader_id: CommittedLeaderId { term: self.log_id.0 }, index: self.log_id.1 }
    }

    open spec fn spec_payload(&self) -> EntryPayload<D> {
        self.payload
    }

    fn new(log_id: LogId, payload: EntryPayload<D>) -> (r: Self) {
        EzEntry { log_id: (log_id.leader_id.term, log_id.index), payload }
    }

    fn log_id_parts(&self) -> (r: (CommittedLeaderId, u64)) {
        (CommittedLeaderId { term: self.log_id.0 }, self.log_id.1)
    }

    fn set_log_id(&mut self, new: LogId) {
        self.log_id = (new.leader_id.term, new.index);
    }
}

} // verus!
