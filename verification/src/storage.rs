//! The state a node persists and the bookkeeping of its storage and state machine:
//! what each storage operation changes in the cached metadata, which entries a read
//! may ask the storage for, and how applying entries and snapshots moves the state
//! machine.

use vstd::prelude::*;
use vstd::string::StringExecFns;
use crate::entry::{EntryPayload, EzEntry};
use crate::errors::SnapshotSignature;
use crate::log_id::{EzLogId, LogId};
use crate::membership::{BasicNode, Membership, StoredMembership};
use crate::text::{decimal, decimal_string};
use crate::vote::{CommittedLeaderId, Vote};

verus! {

/// The Raft metadata a node persists.
#[derive(Debug, Clone, Copy, Default, PartialEq, Eq)]
pub struct EzMeta {
    /// This node's id, once it is assigned.
    pub node_id: Option<u64>,
    /// The current vote.
    pub vote: Option<Vote>,
    /// The last log entry, `(term, index)`.
    pub last_log_id: Option<EzLogId>,
    /// The last purged log entry, `(term, index)`.
    pub last_purged: Option<EzLogId>,
}

/// The view of a stored membership: its log id, configs and nodes.
pub type StoredMembershipView = (Option<LogId>, (Seq<Set<u64>>, Map<u64, BasicNode>));

/// The metadata of a snapshot: the last log id and membership it covers, and its id.
#[derive(Debug, PartialEq, Eq, Default)]
pub struct SnapshotMeta {
    pub last_log_id: Option<LogId>,
    pub last_membership: StoredMembership,
    pub snapshot_id: String,
}

impl View for SnapshotMeta {
    type V = (Option<LogId>, StoredMembershipView, Seq<char>);

    open spec fn view(&self) -> (Option<LogId>, StoredMembershipView, Seq<char>) {
        (self.last_log_id, self.last_membership@, self.snapshot_id@)
    }
}

impl Clone for SnapshotMeta {
    fn clone(&self) -> (r: Self)
        ensures
            r@ == self@,
    {
        SnapshotMeta {
            last_log_id: self.last_log_id,
            last_membership: self.last_membership.clone(),
            snapshot_id: self.snapshot_id.clone(),
        }
    }
}

impl SnapshotMeta {
    /// The identity of this snapshot.
    pub fn signature(&self) -> (r: SnapshotSignature)
        ensures
            r.last_log_id == self.last_log_id,
            r.last_membership_log_id == match self.last_membership.log_id {
                Some(l) => Some(Box::new(l)),
                None => None::<Box<LogId>>,
            },
            r.snapshot_id@ == self.snapshot_id@,
    {
        let last_membership_log_id = match self.last_membership.log_id {
            Some(l) => Some(Box::new(l)),
            None => None,
        };
        SnapshotSignature {
            last_log_id: self.last_log_id,
            last_membership_log_id,
            snapshot_id: self.snapshot_id.clone(),
        }
    }

    /// The last log id this snapshot covers.
    pub fn last_log_id(&self) -> (r: Option<&LogId>)
        ensures
            r.is_some() == self.last_log_id.is_some(),
            r matches Some(l) ==> *l == self.last_log_id.unwrap(),
    {
        match &self.last_log_id {
            Some(l) => Some(l),
            None => None,
        }
    }
}

/// A snapshot: its metadata and the serialized state machine.
#[derive(Debug, PartialEq, Eq)]
pub struct Snapshot {
    pub meta: SnapshotMeta,
    pub snapshot: Vec<u8>,
}

/// The snapshot of a node.
pub type EzSnapshot = Snapshot;

/// The snapshot metadata of a node.
pub type EzSnapshotMeta = SnapshotMeta;

/// What a node loads from its storage when it starts.
#[derive(Debug)]
pub struct Loaded {
    pub meta: EzMeta,
    pub snapshot: Option<EzSnapshot>,
}

/// One storage operation, persisted atomically and in order.
#[derive(Debug)]
pub enum Persist<D> {
    /// Replace the Raft metadata.
    Meta(EzMeta),
    /// Write a log entry.
    LogEntry(EzEntry<D>),
    /// Replace the snapshot.
    Snapshot(EzSnapshot),
    /// Delete every log entry from this index on.
    TruncateLogs(u64),
    /// Delete every log entry up to and including this index.
    PurgeLogs(u64),
}

/// The ends of the log: the last entry and the last purged one.
#[derive(Debug, Clone, Copy, PartialEq, Eq)]
pub struct LogState {
    pub last_log_id: Option<LogId>,
    pub last_purged_log_id: Option<LogId>,
}

/// The log id of a `(term, index)` pair.
pub open spec fn log_id_of_pair(p: EzLogId) -> LogId {
    LogId { leader_id: CommittedLeaderId { term: p.0 }, index: p.1 }
}

/// The log id of an optional `(term, index)` pair.
pub open spec fn opt_log_id_of_pair(p: Option<EzLogId>) -> Option<LogId> {
    match p {
        Some(x) => Some(log_id_of_pair(x)),
        None => None,
    }
}

/// The `(term, index)` pair of an optional log id.
pub open spec fn opt_pair_of_log_id(l: Option<LogId>) -> Option<EzLogId> {
    match l {
        Some(x) => Some((x.leader_id.term, x.index)),
        None => None,
    }
}

fn pair_to_log_id(p: Option<EzLogId>) -> (r: Option<LogId>)
    ensures
        r == opt_log_id_of_pair(p),
{
    match p {
        Some((t, i)) => Some(LogId::new_term_index(t, i)),
        None => None,
    }
}

fn log_id_to_pair(l: Option<LogId>) -> (r: Option<EzLogId>)
    ensures
        r == opt_pair_of_log_id(l),
{
    match l {
        Some(x) => Some((x.leader_id.term, x.index)),
        None => None,
    }
}

/// One end of a range of log indexes to read.
#[derive(Debug, Clone, Copy, PartialEq, Eq)]
pub enum RangeBound {
    Included(u64),
    Excluded(u64),
    Unbounded,
}

/// The first index a start bound admits.
pub open spec fn start_of(b: RangeBound) -> int {
    match b {
        RangeBound::Included(x) => x as int,
        RangeBound::Excluded(x) => x + 1,
        RangeBound::Unbounded => 0,
    }
}

/// The index an end bound stops before, given the index after the last entry.
pub open spec fn end_of(b: RangeBound, hi: int) -> int {
    match b {
        RangeBound::Included(x) => x + 1,
        RangeBound::Excluded(x) => x as int,
        RangeBound::Unbounded => hi,
    }
}

/// The index after an optional `(term, index)` pair: 0 when there is none.
pub open spec fn next_index_of_pair(p: Option<EzLogId>) -> int {
    match p {
        Some(x) => x.1 + 1,
        None => 0,
    }
}

/// The indexes `[start, end)` of the stored entries a read of `(start_bound, end_bound)`
/// asks the storage for: the requested range cut to the entries after the last
/// purged one and up to the last one, or `None` when nothing is left.
pub open spec fn read_range_of(meta: EzMeta, start_bound: RangeBound, end_bound: RangeBound) -> Option<
    (int, int),
> {
    let lo = next_index_of_pair(meta.last_purged);
    let hi = next_index_of_pair(meta.last_log_id);
    let start = if start_of(start_bound) > lo {
        start_of(start_bound)
    } else {
        lo
    };
    let end = if end_of(end_bound, hi) < hi {
        end_of(end_bound, hi)
    } else {
        hi
    };
    if start >= end {
        None
    } else {
        Some((start, end))
    }
}

impl EzMeta {
    /// The ends of the log, as log ids.
    pub fn log_state(&self) -> (r: LogState)
        ensures
            r.last_log_id == opt_log_id_of_pair(self.last_log_id),
            r.last_purged_log_id == opt_log_id_of_pair(self.last_purged),
    {
        LogState {
            last_log_id: pair_to_log_id(self.last_log_id),
            last_purged_log_id: pair_to_log_id(self.last_purged),
        }
    }

    /// Records this node's id; returns the metadata to persist.
    pub fn save_node_id(&mut self, node_id: u64) -> (r: EzMeta)
        ensures
            *final(self) == (EzMeta { node_id: Some(node_id), ..*old(self) }),
            r == *final(self),
    {
        self.node_id = Some(node_id);
        *self
    }

    /// Records a vote; returns the metadata to persist.
    pub fn save_vote(&mut self, vote: Vote) -> (r: EzMeta)
        ensures
            *final(self) == (EzMeta { vote: Some(vote), ..*old(self) }),
            r == *final(self),
    {
        self.vote = Some(vote);
        *self
    }

    /// Records that the entries after `last_log_id` are gone; returns the metadata to
    /// persist.
    pub fn truncate_after(&mut self, last_log_id: Option<LogId>) -> (r: EzMeta)
        ensures
            *final(self) == (EzMeta { last_log_id: opt_pair_of_log_id(last_log_id), ..*old(self) }),
            r == *final(self),
    {
        self.last_log_id = log_id_to_pair(last_log_id);
        *self
    }

    /// The index from which truncating after `last_log_id` deletes entries: the one
    /// after it, or 0 when no entry is kept; `None` when `last_log_id` is at the
    /// greatest index, which no entry can follow.
    pub fn truncate_logs_from(last_log_id: Option<LogId>) -> (r: Option<u64>)
        ensures
            r == match last_log_id {
                None => Some(0u64),
                Some(l) => if l.index < u64::MAX {
                    Some((l.index + 1) as u64)
                } else {
                    None::<u64>
                },
            },
    {
        match last_log_id {
            None => Some(0),
            Some(l) => if l.index < u64::MAX {
                Some(l.index + 1)
            } else {
                None
            },
        }
    }

    /// Records that the entries up to `log_id` are purged; returns the metadata to persist.
    pub fn purge(&mut self, log_id: LogId) -> (r: EzMeta)
        ensures
            *final(self) == (EzMeta {
                last_purged: Some((log_id.leader_id.term, log_id.index)),
                ..*old(self)
            }),
            r == *final(self),
    {
        self.last_purged = Some((log_id.leader_id.term, log_id.index));
        *self
    }

    /// Records that `entries` were appended; returns the metadata to persist, or `None`
    /// when there were no entries and nothing changed.
    pub fn append<D>(&mut self, entries: &Vec<EzEntry<D>>) -> (r: Option<EzMeta>)
        ensures
            entries@.len() == 0 ==> *final(self) == *old(self) && r.is_none(),
            entries@.len() > 0 ==> *final(self) == (EzMeta {
                last_log_id: Some(entries@.last().log_id),
                ..*old(self)
            }) && r == Some(*final(self)),
    {
        let n = entries.len();
        if n == 0 {
            None
        } else {
            self.last_log_id = Some(entries[n - 1].log_id);
            Some(*self)
        }
    }

    /// Records that a snapshot covering up to `meta.last_log_id` was installed.
    pub fn install_snapshot(&mut self, meta: &SnapshotMeta)
        ensures
            *final(self) == (EzMeta {
                last_log_id: opt_pair_of_log_id(meta.last_log_id),
                ..*old(self)
            }),
    {
        self.last_log_id = log_id_to_pair(meta.last_log_id);
    }

    /// The indexes `[start, end)` of the stored entries to read for the requested
    /// range, or `None` when none of them is stored.
    pub fn read_range(&self, start_bound: RangeBound, end_bound: RangeBound) -> (r: Option<(u64, u64)>)
        requires
            self.last_purged matches Some(p) ==> p.1 < u64::MAX,
            self.last_log_id matches Some(p) ==> p.1 < u64::MAX,
            start_bound matches RangeBound::Excluded(x) ==> x < u64::MAX,
            end_bound matches RangeBound::Included(x) ==> x < u64::MAX,
        ensures
            r matches Some((s, e)) ==> read_range_of(*self, start_bound, end_bound) == Some(
                (s as int, e as int),
            ),
            r.is_none() ==> read_range_of(*self, start_bound, end_bound).is_none(),
    {
        let lo = match self.last_purged {
            Some((_, i)) => i + 1,
            None => 0,
        };
        let hi = match self.last_log_id {
            Some((_, i)) => i + 1,
            None => 0,
        };
        let start = match start_bound {
            RangeBound::Included(x) => x,
            RangeBound::Excluded(x) => x + 1,
            RangeBound::Unbounded => 0,
        };
        let end = match end_bound {
            RangeBound::Included(x) => x + 1,
            RangeBound::Excluded(x) => x,
            RangeBound::Unbounded => hi,
        };
        let start = if start > lo {
            start
        } else {
            lo
        };
        let end = if end < hi {
            end
        } else {
            hi
        };
        if start >= end {
            None
        } else {
            Some((start, end))
        }
    }
}

/// The state kept beside the application state machine: the last applied log id and
/// the last applied membership.
#[derive(Debug, Default)]
pub struct StateMachineState {
    pub last_applied: Option<LogId>,
    pub membership: StoredMembership,
}

impl View for StateMachineState {
    type V = (Option<LogId>, StoredMembershipView);

    open spec fn view(&self) -> (Option<LogId>, StoredMembershipView) {
        (self.last_applied, self.membership@)
    }
}

/// The empty membership, stored at no log id.
pub open spec fn empty_stored_membership_view() -> StoredMembershipView {
    (None, (Seq::empty(), Map::empty()))
}

/// The id of a snapshot built after applying up to `last_applied`: the term and the
/// index joined by a dash, or `0-0` before anything was applied.
pub open spec fn snapshot_id_text(last_applied: Option<LogId>) -> Seq<char> {
    match last_applied {
        Some(l) => decimal(l.leader_id.term as nat) + seq!['-'] + decimal(l.index as nat),
        None => seq!['0', '-', '0'],
    }
}

/// The metadata of the snapshot built from a state machine in state `sm`.
pub open spec fn built_snapshot_meta(sm: (Option<LogId>, StoredMembershipView)) -> (
    Option<LogId>,
    StoredMembershipView,
    Seq<char>,
) {
    (sm.0, sm.1, snapshot_id_text(sm.0))
}

/// The state of a state machine after installing the snapshot of `meta`.
pub open spec fn installed_state(meta: (Option<LogId>, StoredMembershipView, Seq<char>)) -> (
    Option<LogId>,
    StoredMembershipView,
) {
    (meta.0, meta.1)
}

/// The state of a state machine after applying an entry at `log_id` whose payload
/// carries membership `membership`, if any.
pub open spec fn applied_state_after(
    sm: (Option<LogId>, StoredMembershipView),
    log_id: LogId,
    membership: Option<(Seq<Set<u64>>, Map<u64, BasicNode>)>,
) -> (Option<LogId>, StoredMembershipView) {
    match membership {
        Some(m) => (Some(log_id), (Some(log_id), m)),
        None => (Some(log_id), sm.1),
    }
}

/// The membership carried by a payload, if any.
pub open spec fn payload_membership<D>(p: EntryPayload<D>) -> Option<
    (Seq<Set<u64>>, Map<u64, BasicNode>),
> {
    match p {
        EntryPayload::Membership(m) => Some(m@),
        _ => None,
    }
}

/// The text `0-0`.
fn zero_snapshot_id() -> (r: String)
    ensures
        r@ == seq!['0', '-', '0'],
{
    proof {
        reveal_strlit("0-0");
    }
    let r = String::from_str("0-0");
    assert(r@ =~= seq!['0', '-', '0']);
    r
}

/// The id of a snapshot built after applying up to `last_applied`.
pub fn snapshot_id_of(last_applied: Option<LogId>) -> (r: String)
    ensures
        r@ == snapshot_id_text(last_applied),
{
    match last_applied {
        Some(l) => {
            let mut s = decimal_string(l.leader_id.term);
            proof {
                reveal_strlit("-");
            }
            s.append("-");
            let idx = decimal_string(l.index);
            s.append(idx.as_str());
            assert(s@ =~= snapshot_id_text(last_applied));
            s
        },
        None => zero_snapshot_id(),
    }
}

impl StateMachineState {
    /// Starts a state machine from the snapshot loaded from storage, if any.
    ///
    /// Returns the applied state, which is the snapshot's, or that of a new state
    /// machine; and the snapshot data that the application state machine must install
    /// before any entry after the snapshot is applied, so that its state covers every
    /// entry up to the snapshot's last log id.
    pub fn restored(snapshot: &Option<EzSnapshot>) -> (r: (Self, Option<&Vec<u8>>))
        ensures
            r.0@ == match snapshot {
                Some(s) => installed_state(s.meta@),
                None => (None::<LogId>, empty_stored_membership_view()),
            },
            r.1.is_some() == snapshot.is_some(),
            r.1 matches Some(d) ==> d@ == snapshot.unwrap().snapshot@,
    {
        match snapshot {
            Some(snap) => (
                StateMachineState {
                    last_applied: snap.meta.last_log_id,
                    membership: snap.meta.last_membership.clone(),
                },
                Some(&snap.snapshot),
            ),
            None => {
                let r = StateMachineState {
                    last_applied: None,
                    membership: StoredMembership::new(None, Membership::new(Vec::new(), std::collections::BTreeMap::new())),
                };
                assert(r@.1.1.0 =~= Seq::<Set<u64>>::empty());
                (r, None)
            },
        }
    }

    /// The last applied log id and membership.
    pub fn applied_state(&self) -> (r: (Option<LogId>, StoredMembership))
        ensures
            r.0 == self.last_applied,
            r.1@ == self.membership@,
    {
        (self.last_applied, self.membership.clone())
    }

    /// Applies `entry`: it becomes the last applied entry, and its membership, if it
    /// carries one, the last applied membership. Returns the request for the
    /// application state machine, if the entry carries one.
    pub fn apply_entry<D>(&mut self, entry: EzEntry<D>) -> (r: Option<D>)
        ensures
            final(self)@ == applied_state_after(
                old(self)@,
                LogId { leader_id: CommittedLeaderId { term: entry.log_id.0 }, index: entry.log_id.1 },
                payload_membership(entry.payload),
            ),
            r == match entry.payload {
                EntryPayload::Normal(d) => Some(d),
                _ => None::<D>,
            },
            final(self).last_applied == Some(
                LogId { leader_id: CommittedLeaderId { term: entry.log_id.0 }, index: entry.log_id.1 },
            ),
            !(entry.payload is Membership) ==> final(self).membership@ == old(self).membership@,
            entry.payload matches EntryPayload::Membership(m) ==> final(self).membership@ == (
                Some(LogId { leader_id: CommittedLeaderId { term: entry.log_id.0 }, index: entry.log_id.1 }),
                m@,
            ),
    {
        let (term, index) = entry.log_id;
        let log_id = LogId::new_term_index(term, index);
        self.last_applied = Some(log_id);
        match entry.payload {
            EntryPayload::Normal(req) => Some(req),
            EntryPayload::Membership(membership) => {
                self.membership = StoredMembership::new(Some(log_id), membership);
                None
            },
            EntryPayload::Blank => None,
        }
    }

    /// Installs the snapshot of `meta`: its last log id and membership become the
    /// applied ones.
    pub fn install_snapshot(&mut self, meta: &SnapshotMeta)
        ensures
            final(self)@ == installed_state(meta@),
    {
        self.last_applied = meta.last_log_id;
        self.membership = meta.last_membership.clone();
    }

    /// The metadata of a snapshot of the current state.
    pub fn build_snapshot_meta(&self) -> (r: SnapshotMeta)
        ensures
            r@ == built_snapshot_meta(self@),
    {
        SnapshotMeta {
            last_log_id: self.last_applied,
            last_membership: self.membership.clone(),
            snapshot_id: snapshot_id_of(self.last_applied),
        }
    }
}

/// What applying an entry needs of it: its log id and the membership it carries, if any.
pub type AppliedEntry = (LogId, Option<(Seq<Set<u64>>, Map<u64, BasicNode>)>);

/// The applied state after applying `entries` in order, starting from `sm`.
pub open spec fn applied_after(sm: (Option<LogId>, StoredMembershipView), entries: Seq<AppliedEntry>) -> (
    Option<LogId>,
    StoredMembershipView,
)
    decreases entries.len(),
{
    if entries.len() == 0 {
        sm
    } else {
        applied_state_after(
            applied_after(sm, entries.drop_last()),
            entries.last().0,
            entries.last().1,
        )
    }
}

/// Applying `a` then `b` is applying `a + b`.
proof fn lemma_applied_after_concat(
    sm: (Option<LogId>, StoredMembershipView),
    a: Seq<AppliedEntry>,
    b: Seq<AppliedEntry>,
)
    ensures
        applied_after(applied_after(sm, a), b) == applied_after(sm, a + b),
    decreases b.len(),
{
    if b.len() == 0 {
        assert(a + b =~= a);
    } else {
        lemma_applied_after_concat(sm, a, b.drop_last());
        assert((a + b).drop_last() =~= a + b.drop_last());
        assert((a + b).last() == b.last());
    }
}

/// Law: a node that restarts from the snapshot built after applying `prefix`, and then
/// replays `tail`, reaches the applied state of applying `prefix + tail` from the start.
pub proof fn lemma_restart_replays_to_same_state(
    sm: (Option<LogId>, StoredMembershipView),
    prefix: Seq<AppliedEntry>,
    tail: Seq<AppliedEntry>,
)
    ensures
        applied_after(installed_state(built_snapshot_meta(applied_after(sm, prefix))), tail)
            == applied_after(sm, prefix + tail),
{
    lemma_install_after_build(applied_after(sm, prefix));
    lemma_applied_after_concat(sm, prefix, tail);
}

/// Law: installing the snapshot a state machine builds gives back that state
/// machine's applied state.
pub proof fn lemma_install_after_build(sm: (Option<LogId>, StoredMembershipView))
    ensures
        installed_state(built_snapshot_meta(sm)) == sm,
{
}

/// Law: a read never asks the storage for a purged entry or one after the last
/// entry, and never for an index outside the requested range.
pub proof fn lemma_read_range_within_log(meta: EzMeta, start_bound: RangeBound, end_bound: RangeBound)
    ensures
        read_range_of(meta, start_bound, end_bound) matches Some((s, e)) ==> {
            &&& next_index_of_pair(meta.last_purged) <= s
            &&& s < e
            &&& e <= next_index_of_pair(meta.last_log_id)
            &&& start_of(start_bound) <= s
            &&& e <= end_of(end_bound, next_index_of_pair(meta.last_log_id))
        },
{
}

/// Law: a read of a range that lies within the stored entries asks for exactly that
/// range.
pub proof fn lemma_read_range_exact(meta: EzMeta, start: u64, end: u64)
    requires
        next_index_of_pair(meta.last_purged) <= start,
        start < end,
        end <= next_index_of_pair(meta.last_log_id),
    ensures
        read_range_of(meta, RangeBound::Included(start), RangeBound::Excluded(end)) == Some(
            (start as int, end as int),
        ),
{
}

/// Law: after truncating after `l`, the log state reports `l` as the last log id, and
/// the last purged log id is kept.
pub proof fn lemma_truncate_then_log_state(meta: EzMeta, l: Option<LogId>)
    ensures
        opt_log_id_of_pair((EzMeta { last_log_id: opt_pair_of_log_id(l), ..meta }).last_log_id) == l,
        (EzMeta { last_log_id: opt_pair_of_log_id(l), ..meta }).last_purged == meta.last_purged,
{
}

/// Law: applying an entry makes it the last applied one; only an entry that carries
/// a membership changes the applied membership, which then becomes that membership,
/// stored at the entry's log id. A blank entry or an application request leaves the
/// applied membership as it was.
pub proof fn lemma_only_membership_entries_change_membership<D>(
    sm: (Option<LogId>, StoredMembershipView),
    log_id: LogId,
    payload: EntryPayload<D>,
)
    ensures
        applied_state_after(sm, log_id, payload_membership(payload)).0 == Some(log_id),
        payload is Blank ==> applied_state_after(sm, log_id, payload_membership(payload)).1 == sm.1,
        payload is Normal ==> applied_state_after(sm, log_id, payload_membership(payload)).1 == sm.1,
        payload matches EntryPayload::Membership(m) ==> applied_state_after(
            sm,
            log_id,
            payload_membership(payload),
        ).1 == (Some(log_id), m@),
{
}

/// Law: after applying a sequence of entries, the last applied log id is the last
/// entry's, whatever came before.
pub proof fn lemma_applied_is_last_entry(
    sm: (Option<LogId>, StoredMembershipView),
    log_id: LogId,
    membership: Option<(Seq<Set<u64>>, Map<u64, BasicNode>)>,
)
    ensures
        applied_state_after(sm, log_id, membership).0 == Some(log_id),
        membership is None ==> applied_state_after(sm, log_id, membership).1 == sm.1,
        membership matches Some(m) ==> applied_state_after(sm, log_id, membership).1 == (
            Some(log_id),
            m,
        ),
{
}

} // verus!
