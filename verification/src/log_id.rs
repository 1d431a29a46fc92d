//! Log ids: the term of the leader that proposed an entry and the entry's index.

use std::cmp::Ordering;
use vstd::prelude::*;
use crate::vote::CommittedLeaderId;

verus! {

/// The globally unique id of a log entry: equal log ids mean the same entry.
///
/// Log ids are ordered by term, then by index.
#[derive(Debug, Clone, Copy, PartialEq, Eq, Hash, PartialOrd, Ord, Default)]
pub struct LogId {
    pub leader_id: CommittedLeaderId,
    pub index: u64,
}

/// A log id held as a plain `(term, index)` pair.
pub type EzLogId = (u64, u64);

/// `a <= b` for log ids: by term, then by index.
pub open spec fn log_id_le(a: LogId, b: LogId) -> bool {
    a.leader_id.term < b.leader_id.term || (a.leader_id.term == b.leader_id.term && a.index
        <= b.index)
}

/// `a <= b` for optional log ids, where no log id is less than every log id.
pub open spec fn opt_log_id_le(a: Option<LogId>, b: Option<LogId>) -> bool {
    match (a, b) {
        (None, _) => true,
        (Some(_), None) => false,
        (Some(x), Some(y)) => log_id_le(x, y),
    }
}

/// The ordering of two optional log ids, where no log id is the least.
pub open spec fn opt_log_id_cmp(a: Option<LogId>, b: Option<LogId>) -> Ordering {
    if opt_log_id_le(a, b) && opt_log_id_le(b, a) {
        Ordering::Equal
    } else if opt_log_id_le(a, b) {
        Ordering::Less
    } else {
        Ordering::Greater
    }
}

/// The index that follows an optional log id: 0 when there is none.
pub open spec fn next_index_of(a: Option<LogId>) -> int {
    match a {
        None => 0,
        Some(x) => x.index + 1,
    }
}

impl LogId {
    /// The log id at `index` proposed by `leader_id`.
    pub fn new(leader_id: CommittedLeaderId, index: u64) -> (r: Self)
        ensures
            r.leader_id == leader_id,
            r.index == index,
    {
        LogId { leader_id, index }
    }

    /// The log id at `index` proposed in `term`.
    pub fn new_term_index(term: u64, index: u64) -> (r: Self)
        ensures
            r.leader_id.term == term,
            r.index == index,
    {
        LogId { leader_id: CommittedLeaderId { term }, index }
    }

    /// Whether this log id is less than or equal to `other`.
    pub fn le(&self, other: &LogId) -> (r: bool)
        ensures
            r == log_id_le(*self, *other),
    {
        self.leader_id.term < other.leader_id.term || (self.leader_id.term == other.leader_id.term
            && self.index <= other.index)
    }
}

/// Whether optional log id `a` is less than or equal to `b`.
pub fn opt_log_id_less_equal(a: &Option<LogId>, b: &Option<LogId>) -> (r: bool)
    ensures
        r == opt_log_id_le(*a, *b),
{
    match (a, b) {
        (None, _) => true,
        (Some(_), None) => false,
        (Some(x), Some(y)) => x.le(y),
    }
}

/// Compares two optional log ids; no log id is the least.
pub fn opt_log_id_compare(a: &Option<LogId>, b: &Option<LogId>) -> (r: Ordering)
    ensures
        r == opt_log_id_cmp(*a, *b),
{
    let ab = opt_log_id_less_equal(a, b);
    let ba = opt_log_id_less_equal(b, a);
    if ab && ba {
        Ordering::Equal
    } else if ab {
        Ordering::Less
    } else {
        Ordering::Greater
    }
}

/// A type that identifies a log entry by the term of its leader and its index.
pub trait RaftLogId: Sized {
    /// The term of the leader that proposed the entry.
    spec fn spec_term(&self) -> u64;

    /// The index of the entry.
    spec fn spec_index(&self) -> u64;

    /// The log id proposed by `leader_id` at `index`.
    fn new(leader_id: CommittedLeaderId, index: u64) -> (r: Self)
        ensures
            r.spec_term() == leader_id.term,
            r.spec_index() == index,
    ;

    /// The committed leader id that proposed this entry.
    fn committed_leader_id(&self) -> (r: CommittedLeaderId)
        ensures
            r.term == self.spec_term(),
    ;

    /// The index of this entry.
    fn index(&self) -> (r: u64)
        ensures
            r == self.spec_index(),
    ;

    /// The leader id and the index of this log id.
    fn log_id_parts(&self) -> (r: (CommittedLeaderId, u64))
        ensures
            r.0.term == self.spec_term(),
            r.1 == self.spec_index(),
    {
        (self.committed_leader_id(), self.index())
    }
}

impl RaftLogId for LogId {
    open spec fn spec_term(&self) -> u64 {
        self.leader_id.term
    }

    open spec fn spec_index(&self) -> u64 {
        self.index
    }

    fn new(leader_id: CommittedLeaderId, index: u64) -> (r: Self) {
        LogId { leader_id, index }
    }

    fn committed_leader_id(&self) -> (r: CommittedLeaderId) {
        self.leader_id
    }

    fn index(&self) -> (r: u64) {
        self.index
    }
}

impl RaftLogId for (u64, u64) {
    open spec fn spec_term(&self) -> u64 {
        self.0
    }

    open spec fn spec_index(&self) -> u64 {
        self.1
    }

    fn new(leader_id: CommittedLeaderId, index: u64) -> (r: Self) {
        (leader_id.term, index)
    }

    fn committed_leader_id(&self) -> (r: CommittedLeaderId) {
        CommittedLeaderId { term: self.0 }
    }

    fn index(&self) -> (r: u64) {
        self.1
    }
}

/// The same log id in another representation.
pub fn to_type<S: RaftLogId, T: RaftLogId>(log_id: &S) -> (r: T)
    ensures
        r.spec_term() == log_id.spec_term(),
        r.spec_index() == log_id.spec_index(),
{
    T::new(log_id.committed_leader_id(), log_id.index())
}

/// A borrowed view of a log id: a reference to its leader id and its index.
#[derive(Debug, Clone, Copy, PartialEq, Eq)]
pub struct RefLogId<'k> {
    pub leader_id: &'k CommittedLeaderId,
    pub index: u64,
}

impl<'k> RefLogId<'k> {
    /// A borrowed log id of `leader_id` at `index`.
    pub fn new(leader_id: &'k CommittedLeaderId, index: u64) -> (r: Self)
        ensures
            *r.leader_id == *leader_id,
            r.index == index,
    {
        RefLogId { leader_id, index }
    }

    /// The leader id of this log id.
    pub fn committed_leader_id(&self) -> (r: &'k CommittedLeaderId)
        ensures
            *r == *self.leader_id,
    {
        self.leader_id
    }

    /// The index of this log id.
    pub fn index(&self) -> (r: u64)
        ensures
            r == self.index,
    {
        self.index
    }

    /// The owned log id this borrows.
    pub fn into_log_id(self) -> (r: LogId)
        ensures
            r.leader_id == *self.leader_id,
            r.index == self.index,
    {
        LogId { leader_id: *self.leader_id, index: self.index }
    }
}

/// The borrowed view of a log id.
pub fn to_ref(log_id: &LogId) -> (r: RefLogId<'_>)
    ensures
        *r.leader_id == log_id.leader_id,
        r.index == log_id.index,
{
    RefLogId { leader_id: &log_id.leader_id, index: log_id.index }
}

/// The index of an optional log id.
pub fn index_of<T: RaftLogId>(log_id: &Option<T>) -> (r: Option<u64>)
    ensures
        r == match log_id {
            Some(x) => Some(x.spec_index()),
            None => None::<u64>,
        },
{
    match log_id {
        Some(x) => Some(x.index()),
        None => None,
    }
}

/// The index after an optional log id: 0 when there is none.
pub fn next_index<T: RaftLogId>(log_id: &Option<T>) -> (r: u64)
    requires
        log_id matches Some(x) ==> x.spec_index() < u64::MAX,
    ensures
        r == match log_id {
            Some(x) => x.spec_index() + 1,
            None => 0,
        },
{
    match log_id {
        None => 0,
        Some(x) => x.index() + 1,
    }
}

/// The leader id of an optional log id.
pub fn committed_leader_id_of<T: RaftLogId>(log_id: &Option<T>) -> (r: Option<CommittedLeaderId>)
    ensures
        r == match log_id {
            Some(x) => Some(CommittedLeaderId { term: x.spec_term() }),
            None => None::<CommittedLeaderId>,
        },
{
    match log_id {
        Some(x) => Some(x.committed_leader_id()),
        None => None,
    }
}

/// The borrowed view of an optional log id.
pub fn opt_to_ref(log_id: &Option<LogId>) -> (r: Option<RefLogId<'_>>)
    ensures
        r.is_some() == log_id.is_some(),
        r matches Some(x) ==> *x.leader_id == log_id.unwrap().leader_id && x.index
            == log_id.unwrap().index,
{
    match log_id {
        Some(x) => Some(to_ref(x)),
        None => None,
    }
}

/// The owned log id of an optional borrowed one.
pub fn opt_to_log_id(r: &Option<RefLogId<'_>>) -> (o: Option<LogId>)
    ensures
        o.is_some() == r.is_some(),
        o matches Some(x) ==> x.leader_id == *r.unwrap().leader_id && x.index == r.unwrap().index,
{
    match r {
        Some(x) => Some(x.into_log_id()),
        None => None,
    }
}

/// A range of consecutive log entries `(prev, last]`: everything after `prev` up to
/// and including `last`.
#[derive(Debug, Clone, Copy, PartialEq, Eq)]
pub struct LogIdRange {
    /// The log id before the first entry of the range, exclusive.
    pub prev: Option<LogId>,
    /// The last log id of the range, inclusive.
    pub last: Option<LogId>,
}

/// The error of a log id range whose `prev` is greater than its `last`.
#[derive(Debug, Clone, Copy, PartialEq, Eq)]
pub struct InvalidLogIdRange {
    pub prev: Option<LogId>,
    pub last: Option<LogId>,
}

impl LogIdRange {
    /// Whether `prev <= last`, the only well-formed ranges.
    pub open spec fn is_valid(&self) -> bool {
        opt_log_id_le(self.prev, self.last)
    }

    /// The range `(prev, last]`.
    pub fn new(prev: Option<LogId>, last: Option<LogId>) -> (r: Self)
        ensures
            r.prev == prev,
            r.last == last,
    {
        LogIdRange { prev, last }
    }

    /// Checks that `prev <= last`.
    pub fn validate(&self) -> (r: Result<(), InvalidLogIdRange>)
        ensures
            r is Ok <==> self.is_valid(),
            r matches Err(e) ==> e.prev == self.prev && e.last == self.last,
    {
        if opt_log_id_less_equal(&self.prev, &self.last) {
            Ok(())
        } else {
            Err(InvalidLogIdRange { prev: self.prev, last: self.last })
        }
    }

    /// The number of entries in the range.
    pub fn len(&self) -> (r: u64)
        requires
            next_index_of(self.prev) <= next_index_of(self.last),
            next_index_of(self.last) <= u64::MAX,
        ensures
            r == next_index_of(self.last) - next_index_of(self.prev),
    {
        next_index(&self.last) - next_index(&self.prev)
    }
}

/// Law: optional log ids are compared by the leader's term first and by the index
/// only within one term; no log id is less than every log id.
pub proof fn lemma_log_id_cmp_term_then_index(a: Option<LogId>, b: Option<LogId>)
    ensures
        a is None && b is None ==> opt_log_id_cmp(a, b) == Ordering::Equal,
        a is None && b is Some ==> opt_log_id_cmp(a, b) == Ordering::Less,
        a is Some && b is None ==> opt_log_id_cmp(a, b) == Ordering::Greater,
        match (a, b) {
            (Some(x), Some(y)) => {
                &&& x.leader_id.term < y.leader_id.term ==> opt_log_id_cmp(a, b) == Ordering::Less
                &&& x.leader_id.term > y.leader_id.term ==> opt_log_id_cmp(a, b)
                    == Ordering::Greater
                &&& x.leader_id.term == y.leader_id.term && x.index < y.index ==> opt_log_id_cmp(
                    a,
                    b,
                ) == Ordering::Less
                &&& x.leader_id.term == y.leader_id.term && x.index > y.index ==> opt_log_id_cmp(
                    a,
                    b,
                ) == Ordering::Greater
                &&& x.leader_id.term == y.leader_id.term && x.index == y.index ==> opt_log_id_cmp(
                    a,
                    b,
                ) == Ordering::Equal
            },
            _ => true,
        },
{
}

/// Law: comparing the other way round gives the reverse ordering, and only equal
/// log ids compare equal.
pub proof fn lemma_log_id_cmp_antisymmetric(a: Option<LogId>, b: Option<LogId>)
    ensures
        opt_log_id_cmp(a, b) == Ordering::Less <==> opt_log_id_cmp(b, a) == Ordering::Greater,
        opt_log_id_cmp(a, b) == Ordering::Equal <==> a == b,
{
}

/// Law: log id order is a total order.
pub proof fn lemma_log_id_le_total(a: LogId, b: LogId)
    ensures
        log_id_le(a, b) || log_id_le(b, a),
        log_id_le(a, b) && log_id_le(b, a) ==> a == b,
{
}

/// Law: log id order is transitive.
pub proof fn lemma_log_id_le_transitive(a: LogId, b: LogId, c: LogId)
    requires
        log_id_le(a, b),
        log_id_le(b, c),
    ensures
        log_id_le(a, c),
{
}

/// Law: in a valid range whose entries share a term, the length is the number of
/// indexes after `prev` up to `last`.
pub proof fn lemma_valid_range_len(r: LogIdRange)
    requires
        r.is_valid(),
        r.prev matches Some(p) ==> r.last matches Some(l) && p.leader_id.term == l.leader_id.term,
    ensures
        next_index_of(r.prev) <= next_index_of(r.last),
{
}

/// Law: converting a log id to another representation and back keeps it.
pub proof fn lemma_to_type_round_trip(log_id: LogId)
    ensures
        ({
            let pair: (u64, u64) = (log_id.leader_id.term, log_id.index);
            LogId { leader_id: CommittedLeaderId { term: pair.spec_term() }, index: pair.spec_index() }
                == log_id
        }),
{
}

} // verus!
