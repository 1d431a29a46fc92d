//! Quorum sets: a majority of one config, and a joint of several configs.

use std::collections::BTreeSet;
use vstd::prelude::*;
use vstd::std_specs::btree::*;
use vstd::std_specs::iter::IteratorSpec;
use vstd::std_specs::cmp::OrdSpec;

verus! {

broadcast use vstd::std_specs::btree::group_btree_axioms, vstd::laws_cmp::group_laws_cmp;

/// The members of `config` that are among `ids`.
pub open spec fn members_in(config: Seq<u64>, ids: Set<u64>) -> Set<u64> {
    ids.filter(|x: u64| config.contains(x))
}

/// Whether `ids` holds a majority of the voters of `config`.
pub open spec fn is_majority(config: Seq<u64>, ids: Set<u64>) -> bool {
    2 * members_in(config, ids).len() > config.len()
}

/// A set of node ids that can decide whether a group of nodes forms a quorum.
pub trait QuorumSet {
    /// Whether `ids` forms a quorum of this set.
    spec fn spec_is_quorum(&self, ids: Set<u64>) -> bool;

    /// Decides whether `ids` forms a quorum of this set.
    fn is_quorum(&self, ids: &BTreeSet<u64>) -> (r: bool)
        ensures
            r == self.spec_is_quorum(ids@),
    ;
}

/// Counts the members of `config` among the ids yielded in order by `s`.
pub open spec fn count_members(config: Seq<u64>, s: Seq<u64>) -> nat
    decreases s.len(),
{
    if s.len() == 0 {
        0
    } else {
        count_members(config, s.drop_last()) + if config.contains(s.last()) {
            1nat
        } else {
            0nat
        }
    }
}

/// Counting the members along a duplicate-free sequence counts the members in its set.
pub proof fn lemma_count_members_is_set_size(config: Seq<u64>, s: Seq<u64>)
    requires
        s.no_duplicates(),
    ensures
        count_members(config, s) == members_in(config, s.to_set()).len(),
        members_in(config, s.to_set()).finite(),
    decreases s.len(),
{
    broadcast use vstd::set::group_set_axioms, vstd::seq_lib::group_seq_properties;

    if s.len() == 0 {
        assert(members_in(config, s.to_set()) =~= Set::empty());
    } else {
        let t = s.drop_last();
        let x = s.last();
        assert(t.no_duplicates());
        lemma_count_members_is_set_size(config, t);
        assert(s =~= t.push(x));
        assert(s.to_set() =~= t.to_set().insert(x));
        assert(!t.to_set().contains(x)) by {
            if t.to_set().contains(x) {
                let j = choose|j: int| 0 <= j < t.len() && t[j] == x;
                assert(s[j] == s[s.len() - 1]);
            }
        }
        if config.contains(x) {
            assert(members_in(config, s.to_set()) =~= members_in(config, t.to_set()).insert(x));
        } else {
            assert(members_in(config, s.to_set()) =~= members_in(config, t.to_set()));
        }
    }
}

/// Whether `config` holds `id`.
pub fn config_contains(config: &Vec<u64>, id: u64) -> (r: bool)
    ensures
        r == config@.contains(id),
{
    let mut i: usize = 0;
    while i < config.len()
        invariant
            i <= config.len(),
            forall|j: int| 0 <= j < i ==> config@[j] != id,
        decreases config.len() - i,
    {
        if config[i] == id {
            return true;
        }
        i = i + 1;
    }
    false
}

impl QuorumSet for Vec<u64> {
    open spec fn spec_is_quorum(&self, ids: Set<u64>) -> bool {
        is_majority(self@, ids)
    }

    fn is_quorum(&self, ids: &BTreeSet<u64>) -> (r: bool) {
        let mut count: usize = 0;
        let half = self.len() / 2;
        let ghost all: Seq<&u64> = spec_btree_keys_iter(ids).remaining();
        let ghost mut seen: Seq<u64> = Seq::empty();
        proof {
            assert(spec_btree_set_len(ids) == ids@.len());
            assert(all.unref().to_set() == ids@);
        }
        for id in it: ids.iter()
            invariant
                it.seq() == all,
                all.len() <= usize::MAX,
                seen == all.take(it.index()).map_values(|x: &u64| *x),
                count == count_members(self@, seen),
                count <= it.index(),
        {
            proof {
                let b = all.take(it.index() + 1).map_values(|x: &u64| *x);
                assert(b =~= seen.push(*id));
                assert(b.drop_last() =~= seen);
            }
            if config_contains(self, *id) {
                count = count + 1;
            }
            proof {
                seen = seen.push(*id);
            }
        }
        proof {
            let s = all.map_values(|x: &u64| *x);
            assert(seen =~= s);
            assert(all.unref() =~= s);
            assert(s.to_set() =~= ids@);
            lemma_count_members_is_set_size(self@, s);
        }
        count > half
    }
}

/// A joint quorum set: a group is a quorum only if it is a majority of every config.
///
/// Used while the membership changes from one config to another, so that every quorum
/// overlaps a quorum of either config.
#[derive(Debug, Clone, PartialEq, Eq, Default)]
pub struct Joint {
    pub children: Vec<Vec<u64>>,
}

/// Whether `ids` is a majority of each of `configs`.
pub open spec fn is_joint_quorum(configs: Seq<Seq<u64>>, ids: Set<u64>) -> bool {
    forall|i: int| 0 <= i < configs.len() ==> #[trigger] is_majority(configs[i], ids)
}

impl Joint {
    /// The configs of this joint, each as a sequence of voters.
    pub open spec fn configs(&self) -> Seq<Seq<u64>> {
        self.children@.map_values(|c: Vec<u64>| c@)
    }

    /// A joint of the given configs.
    pub fn new(children: Vec<Vec<u64>>) -> (r: Self)
        ensures
            r.children@ == children@,
    {
        Joint { children }
    }

    /// The configs of this joint.
    pub fn children(&self) -> (r: &Vec<Vec<u64>>)
        ensures
            r@ == self.children@,
    {
        &self.children
    }
}

impl QuorumSet for Joint {
    open spec fn spec_is_quorum(&self, ids: Set<u64>) -> bool {
        is_joint_quorum(self.configs(), ids)
    }

    fn is_quorum(&self, ids: &BTreeSet<u64>) -> (r: bool) {
        let mut i: usize = 0;
        while i < self.children.len()
            invariant
                i <= self.children@.len(),
                forall|j: int| 0 <= j < i ==> is_majority(#[trigger] self.configs()[j], ids@),
            decreases self.children@.len() - i,
        {
            if !self.children[i].is_quorum(ids) {
                assert(self.configs()[i as int] == self.children@[i as int]@);
                return false;
            }
            i = i + 1;
        }
        true
    }
}

/// Law: adding ids to a majority keeps it a majority.
pub proof fn lemma_majority_monotone(config: Seq<u64>, a: Set<u64>, b: Set<u64>)
    requires
        a.subset_of(b),
        b.finite(),
        is_majority(config, a),
    ensures
        is_majority(config, b),
{
    broadcast use vstd::set::group_set_axioms;

    b.lemma_len_filter(|x: u64| config.contains(x));
    vstd::set_lib::lemma_len_subset(members_in(config, a), members_in(config, b));
}

/// Law: adding ids to a joint quorum keeps it a joint quorum.
pub proof fn lemma_joint_quorum_monotone(configs: Seq<Seq<u64>>, a: Set<u64>, b: Set<u64>)
    requires
        a.subset_of(b),
        b.finite(),
        is_joint_quorum(configs, a),
    ensures
        is_joint_quorum(configs, b),
{
    assert forall|i: int| 0 <= i < configs.len() implies #[trigger] is_majority(configs[i], b) by {
        lemma_majority_monotone(configs[i], a, b);
    }
}

/// Whether every finite superset of a quorum of `qs` is a quorum of `qs` too.
pub open spec fn is_upward_closed<QS: QuorumSet>(qs: QS) -> bool {
    forall|a: Set<u64>, b: Set<u64>|
        #![trigger qs.spec_is_quorum(a), qs.spec_is_quorum(b)]
        a.subset_of(b) && b.finite() && qs.spec_is_quorum(a) ==> qs.spec_is_quorum(b)
}

/// Law: a majority quorum set is upward closed.
pub proof fn lemma_majority_upward_closed(qs: Vec<u64>)
    ensures
        is_upward_closed(qs),
{
    assert forall|a: Set<u64>, b: Set<u64>|
        a.subset_of(b) && b.finite() && qs.spec_is_quorum(a) implies qs.spec_is_quorum(b) by {
        lemma_majority_monotone(qs@, a, b);
    }
}

/// Law: a joint quorum set is upward closed.
pub proof fn lemma_joint_upward_closed(qs: Joint)
    ensures
        is_upward_closed(qs),
{
    assert forall|a: Set<u64>, b: Set<u64>|
        a.subset_of(b) && b.finite() && qs.spec_is_quorum(a) implies qs.spec_is_quorum(b) by {
        lemma_joint_quorum_monotone(qs.configs(), a, b);
    }
}

/// Law: two majorities of one config share a voter of that config.
pub proof fn lemma_majorities_intersect(config: Seq<u64>, a: Set<u64>, b: Set<u64>)
    requires
        a.finite(),
        b.finite(),
        is_majority(config, a),
        is_majority(config, b),
    ensures
        exists|x: u64| a.contains(x) && b.contains(x) && config.contains(x),
{
    broadcast use vstd::set::group_set_axioms, vstd::seq_lib::group_seq_properties;

    let ma = members_in(config, a);
    let mb = members_in(config, b);
    a.lemma_len_filter(|x: u64| config.contains(x));
    b.lemma_len_filter(|x: u64| config.contains(x));
    config.lemma_cardinality_of_set();
    assert((ma + mb).subset_of(config.to_set()));
    vstd::set_lib::lemma_len_subset(ma + mb, config.to_set());
    if ma.disjoint(mb) {
        vstd::set_lib::lemma_set_disjoint_lens(ma, mb);
        assert(false);
    }
    let x = choose|x: u64| ma.contains(x) && mb.contains(x);
    assert(a.contains(x) && b.contains(x) && config.contains(x));
}

/// Law: two joint quorums share a voter of every config of the joint.
pub proof fn lemma_joint_quorums_intersect(configs: Seq<Seq<u64>>, a: Set<u64>, b: Set<u64>, i: int)
    requires
        a.finite(),
        b.finite(),
        is_joint_quorum(configs, a),
        is_joint_quorum(configs, b),
        0 <= i < configs.len(),
    ensures
        exists|x: u64| a.contains(x) && b.contains(x) && configs[i].contains(x),
{
    assert(is_majority(configs[i], a));
    assert(is_majority(configs[i], b));
    lemma_majorities_intersect(configs[i], a, b);
}

/// Whether `s` is in strictly increasing order.
pub open spec fn is_ascending(s: Seq<u64>) -> bool {
    forall|i: int, j: int| 0 <= i < j < s.len() ==> s[i] < s[j]
}

/// References to ids compare as the ids do.
proof fn lemma_id_refs_obey_cmp()
    ensures
        vstd::laws_cmp::obeys_cmp::<&u64>(),
{
    assert(vstd::laws_cmp::obeys_cmp::<u64>());
    reveal(vstd::laws_eq::obeys_eq_spec_properties);
    reveal(vstd::laws_cmp::obeys_partial_cmp_spec_properties);
    reveal(vstd::laws_cmp::obeys_cmp_partial_ord);
    reveal(vstd::laws_cmp::obeys_cmp_ord);
}

/// Ids that a set's iterator yields in increasing order ascend as numbers.
proof fn lemma_increasing_ids_ascend(all: Seq<&u64>)
    requires
        increasing_seq(all),
    ensures
        is_ascending(all.unref()),
{
    lemma_id_refs_obey_cmp();
    vstd::std_specs::btree::axiom_increasing_seq_meaning(all);
    assert forall|i: int, j: int| 0 <= i < j < all.len() implies all.unref()[i] < all.unref()[j] by {
        assert(OrdSpec::cmp_spec(&all[i], &all[j]) is Less);
    }
}

/// The ids of a set, in increasing order and without duplicates.
pub fn set_to_vec(ids: &BTreeSet<u64>) -> (r: Vec<u64>)
    ensures
        r@.to_set() == ids@,
        r@.no_duplicates(),
        r@.len() == ids@.len(),
        is_ascending(r@),
{
    let mut v: Vec<u64> = Vec::new();
    let ghost all: Seq<&u64> = spec_btree_keys_iter(ids).remaining();
    proof {
        assert(all.unref().to_set() == ids@);
    }
    for id in it: ids.iter()
        invariant
            it.seq() == all,
            v@ == all.take(it.index()).map_values(|x: &u64| *x),
    {
        v.push(*id);
        proof {
            assert(v@ =~= all.take(it.index() + 1).map_values(|x: &u64| *x));
        }
    }
    proof {
        assert(v@ =~= all.unref());
        assert forall|i: int, j: int| 0 <= i < v@.len() && 0 <= j < v@.len() && i != j implies v@[i]
            != v@[j] by {
            assert(all[i] != all[j]);
        }
        v@.unique_seq_to_set();
        assert(increasing_seq(all));
        lemma_increasing_ids_ascend(all);
    }
    v
}

/// The set of the ids in a sequence.
pub fn vec_to_set(ids: &Vec<u64>) -> (r: BTreeSet<u64>)
    ensures
        r@ == ids@.to_set(),
{
    let mut s: BTreeSet<u64> = BTreeSet::new();
    let mut i: usize = 0;
    while i < ids.len()
        invariant
            i <= ids@.len(),
            s@ == ids@.take(i as int).to_set(),
        decreases ids@.len() - i,
    {
        s.insert(ids[i]);
        proof {
            assert(ids@.take(i + 1) =~= ids@.take(i as int).push(ids@[i as int]));
            ids@.take(i as int).lemma_push_to_set_commute(ids@[i as int]);
        }
        i = i + 1;
    }
    assert(ids@.take(ids@.len() as int) =~= ids@);
    s
}

} // verus!
