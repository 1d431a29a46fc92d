//! Cluster membership: the voter configs and the nodes of a cluster, the
//! membership stored at a log id, and the effective membership with its quorum set.

use std::collections::BTreeMap;
use std::collections::BTreeSet;
use vstd::prelude::*;
use vstd::std_specs::btree::*;
use vstd::std_specs::iter::IteratorSpec;
use crate::log_id::{LogId, RaftLogId};
use crate::quorum::{is_ascending, is_joint_quorum, is_majority, set_to_vec, Joint, QuorumSet};
use crate::vote::CommittedLeaderId;

verus! {

broadcast use vstd::std_specs::btree::group_btree_axioms, vstd::laws_cmp::group_laws_cmp;

/// The information a node needs to be reached: its address.
#[derive(Debug, PartialEq, Eq, Hash, Default)]
pub struct BasicNode {
    pub addr: String,
}

impl Clone for BasicNode {
    fn clone(&self) -> (r: Self)
        ensures
            r.addr@ == self.addr@,
    {
        BasicNode { addr: self.addr.clone() }
    }
}

impl BasicNode {
    /// A node reachable at `addr`.
    pub fn new(addr: String) -> (r: Self)
        ensures
            r.addr@ == addr@,
    {
        BasicNode { addr }
    }
}

/// The membership of a cluster: one voter config, or several while the membership
/// changes (a joint config), and the nodes, voters and learners, by id.
#[derive(Debug, PartialEq, Eq, Default)]
pub struct Membership {
    pub configs: Vec<BTreeSet<u64>>,
    pub nodes: BTreeMap<u64, BasicNode>,
}

impl View for Membership {
    type V = (Seq<Set<u64>>, Map<u64, BasicNode>);

    open spec fn view(&self) -> (Seq<Set<u64>>, Map<u64, BasicNode>) {
        (self.configs@.map_values(|c: BTreeSet<u64>| c@), self.nodes@)
    }
}

impl Clone for Membership {
    fn clone(&self) -> (r: Self)
        ensures
            r@ == self@,
    {
        let mut configs: Vec<BTreeSet<u64>> = Vec::new();
        let mut i: usize = 0;
        while i < self.configs.len()
            invariant
                i <= self.configs@.len(),
                configs@.len() == i,
                forall|j: int| 0 <= j < i ==> (#[trigger] configs@[j])@ == self.configs@[j]@,
            decreases self.configs@.len() - i,
        {
            configs.push(self.configs[i].clone());
            i = i + 1;
        }
        let r = Membership { configs, nodes: self.nodes.clone() };
        assert(r@.0 =~= self@.0);
        r
    }
}

/// The ids that are voters in at least one config.
pub open spec fn voters_of(configs: Seq<Set<u64>>) -> Set<u64> {
    Set::new(|x: u64| exists|i: int| 0 <= i < configs.len() && #[trigger] configs[i].contains(x))
}

/// Whether `ids` holds a majority of every config.
pub open spec fn is_membership_quorum(configs: Seq<Set<u64>>, ids: Set<u64>) -> bool {
    forall|i: int|
        0 <= i < configs.len() ==> 2 * #[trigger] ids.intersect(configs[i]).len()
            > configs[i].len()
}

impl Membership {
    /// The configs, each as a set of voter ids.
    pub open spec fn configs_view(&self) -> Seq<Set<u64>> {
        self.configs@.map_values(|c: BTreeSet<u64>| c@)
    }

    /// The voter ids of every config.
    pub open spec fn spec_voter_ids(&self) -> Set<u64> {
        voters_of(self.configs_view())
    }

    /// The nodes that are not voters.
    pub open spec fn spec_learner_ids(&self) -> Set<u64> {
        self.nodes@.dom().filter(|x: u64| !self.spec_voter_ids().contains(x))
    }

    /// A membership of the given configs and nodes.
    pub fn new(configs: Vec<BTreeSet<u64>>, nodes: BTreeMap<u64, BasicNode>) -> (r: Self)
        ensures
            r.configs@ == configs@,
            r.nodes@ == nodes@,
    {
        Membership { configs, nodes }
    }

    /// The configs of this membership: more than one while it changes.
    pub fn get_joint_config(&self) -> (r: &Vec<BTreeSet<u64>>)
        ensures
            r@ == self.configs@,
    {
        &self.configs
    }

    /// The nodes of this membership, voters and learners.
    pub fn nodes(&self) -> (r: &BTreeMap<u64, BasicNode>)
        ensures
            r@ == self.nodes@,
    {
        &self.nodes
    }

    /// The node with id `node_id`, if there is one.
    pub fn get_node(&self, node_id: &u64) -> (r: Option<&BasicNode>)
        ensures
            r.is_some() == self.nodes@.contains_key(*node_id),
            r matches Some(n) ==> *n == self.nodes@[*node_id],
    {
        self.nodes.get(node_id)
    }

    /// Whether `node_id` is a voter of some config.
    pub fn is_voter(&self, node_id: &u64) -> (r: bool)
        ensures
            r == self.spec_voter_ids().contains(*node_id),
    {
        let mut i: usize = 0;
        while i < self.configs.len()
            invariant
                i <= self.configs@.len(),
                forall|j: int| 0 <= j < i ==> !(#[trigger] self.configs_view()[j]).contains(*node_id),
            decreases self.configs@.len() - i,
        {
            if self.configs[i].contains(node_id) {
                assert(self.configs_view()[i as int].contains(*node_id));
                return true;
            }
            i = i + 1;
        }
        false
    }

    /// The ids of all voters.
    pub fn voter_ids(&self) -> (r: BTreeSet<u64>)
        ensures
            r@ == self.spec_voter_ids(),
    {
        let mut res: BTreeSet<u64> = BTreeSet::new();
        let mut i: usize = 0;
        while i < self.configs.len()
            invariant
                i <= self.configs@.len(),
                res@ == voters_of(self.configs_view().take(i as int)),
            decreases self.configs@.len() - i,
        {
            let ids = set_to_vec(&self.configs[i]);
            let ghost before = res@;
            let mut j: usize = 0;
            while j < ids.len()
                invariant
                    j <= ids@.len(),
                    res@ == before + ids@.take(j as int).to_set(),
                decreases ids@.len() - j,
            {
                res.insert(ids[j]);
                proof {
                    assert(ids@.take(j + 1) =~= ids@.take(j as int).push(ids@[j as int]));
                    ids@.take(j as int).lemma_push_to_set_commute(ids@[j as int]);
                }
                j = j + 1;
            }
            proof {
                assert(ids@.take(ids@.len() as int) =~= ids@);
                let c = self.configs_view();
                assert(c.take(i + 1) =~= c.take(i as int).push(c[i as int]));
                assert(res@ =~= voters_of(c.take(i + 1))) by {
                    assert forall|x: u64| #[trigger] res@.contains(x) implies voters_of(
                        c.take(i + 1),
                    ).contains(x) by {
                        if before.contains(x) {
                            let k = choose|k: int|
                                0 <= k < i && #[trigger] c.take(i as int)[k].contains(x);
                            assert(c.take(i + 1)[k] == c.take(i as int)[k]);
                        } else {
                            assert(c.take(i + 1)[i as int] == c[i as int]);
                        }
                    }
                    assert forall|x: u64| #[trigger] voters_of(c.take(i + 1)).contains(x) implies res@.contains(
                        x,
                    ) by {
                        let k = choose|k: int| 0 <= k < i + 1 && #[trigger] c.take(i + 1)[k].contains(x);
                        if k < i {
                            assert(c.take(i as int)[k] == c.take(i + 1)[k]);
                            assert(voters_of(c.take(i as int)).contains(x));
                        }
                    }
                }
            }
            i = i + 1;
        }
        assert(self.configs_view().take(self.configs@.len() as int) =~= self.configs_view());
        res
    }

    /// The ids of the nodes that are not voters.
    pub fn learner_ids(&self) -> (r: BTreeSet<u64>)
        ensures
            r@ == self.spec_learner_ids(),
    {
        let voters = self.voter_ids();
        let mut res: BTreeSet<u64> = BTreeSet::new();
        let ghost all: Seq<&u64> = spec_keys_iter(&self.nodes).remaining();
        let ghost mut seen: Seq<u64> = Seq::empty();
        proof {
            assert(all.unref().to_set() == self.nodes@.dom());
        }
        for id in it: self.nodes.keys()
            invariant
                it.seq() == all,
                seen == all.take(it.index()).map_values(|x: &u64| *x),
                voters@ == self.spec_voter_ids(),
                res@ == seen.to_set().filter(|x: u64| !self.spec_voter_ids().contains(x)),
        {
            let is_voter = voters.contains(id);
            if !is_voter {
                res.insert(*id);
            }
            proof {
                assert(all.take(it.index() + 1).map_values(|x: &u64| *x) =~= seen.push(*id));
                seen.lemma_push_to_set_commute(*id);
                seen = seen.push(*id);
                assert(res@ =~= seen.to_set().filter(|x: u64| !self.spec_voter_ids().contains(x)));
            }
        }
        proof {
            assert(seen =~= all.unref());
            assert(res@ =~= self.spec_learner_ids());
        }
        res
    }
}

/// A membership together with the id of the log entry that stored it.
#[derive(Debug, PartialEq, Eq, Default)]
pub struct StoredMembership {
    pub log_id: Option<LogId>,
    pub membership: Membership,
}

impl View for StoredMembership {
    type V = (Option<LogId>, (Seq<Set<u64>>, Map<u64, BasicNode>));

    open spec fn view(&self) -> (Option<LogId>, (Seq<Set<u64>>, Map<u64, BasicNode>)) {
        (self.log_id, self.membership@)
    }
}

impl Clone for StoredMembership {
    fn clone(&self) -> (r: Self)
        ensures
            r@ == self@,
    {
        StoredMembership { log_id: self.log_id, membership: self.membership.clone() }
    }
}

impl StoredMembership {
    /// The membership stored at `log_id`.
    pub fn new(log_id: Option<LogId>, membership: Membership) -> (r: Self)
        ensures
            r.log_id == log_id,
            r.membership == membership,
    {
        StoredMembership { log_id, membership }
    }

    /// The id of the log entry that stored this membership.
    pub fn log_id(&self) -> (r: &Option<LogId>)
        ensures
            *r == self.log_id,
    {
        &self.log_id
    }

    /// The stored membership.
    pub fn membership(&self) -> (r: &Membership)
        ensures
            *r == self.membership,
    {
        &self.membership
    }

    /// The ids of all voters.
    pub fn voter_ids(&self) -> (r: BTreeSet<u64>)
        ensures
            r@ == self.membership.spec_voter_ids(),
    {
        self.membership.voter_ids()
    }

    /// The nodes, voters and learners.
    pub fn nodes(&self) -> (r: &BTreeMap<u64, BasicNode>)
        ensures
            r@ == self.membership.nodes@,
    {
        self.membership.nodes()
    }
}

/// The membership in effect: the last one seen, with its quorum set and its voter ids
/// kept ready.
#[derive(Debug, Clone, PartialEq, Eq, Default)]
pub struct EffectiveMembership {
    pub stored_membership: StoredMembership,
    /// The quorum set of the membership's configs.
    pub quorum_set: Joint,
    /// The voters of every config.
    pub voter_ids: BTreeSet<u64>,
}

impl EffectiveMembership {
    /// The quorum set and the voter ids match the stored membership.
    pub open spec fn wf(&self) -> bool {
        let configs = self.stored_membership.membership.configs_view();
        &&& self.voter_ids@ == voters_of(configs)
        &&& self.quorum_set.configs().len() == configs.len()
        &&& forall|i: int|
            0 <= i < configs.len() ==> {
                &&& (#[trigger] self.quorum_set.configs()[i]).to_set() == configs[i]
                &&& self.quorum_set.configs()[i].no_duplicates()
                &&& is_ascending(self.quorum_set.configs()[i])
            }
    }

    /// The effective membership of `membership` stored at `log_id`.
    pub fn new(log_id: Option<LogId>, membership: Membership) -> (r: Self)
        ensures
            r.wf(),
            r.stored_membership.log_id == log_id,
            r.stored_membership.membership == membership,
    {
        let voter_ids = membership.voter_ids();
        let mut joint: Vec<Vec<u64>> = Vec::new();
        let mut i: usize = 0;
        while i < membership.configs.len()
            invariant
                i <= membership.configs@.len(),
                joint@.len() == i,
                forall|j: int|
                    0 <= j < i ==> {
                        &&& (#[trigger] joint@[j])@.to_set() == membership.configs@[j]@
                        &&& joint@[j]@.no_duplicates()
                        &&& is_ascending(joint@[j]@)
                    },
            decreases membership.configs@.len() - i,
        {
            let v = set_to_vec(&membership.configs[i]);
            joint.push(v);
            i = i + 1;
        }
        let quorum_set = Joint::new(joint);
        EffectiveMembership {
            stored_membership: StoredMembership::new(log_id, membership),
            quorum_set,
            voter_ids,
        }
    }

    /// The effective membership of a stored one.
    pub fn new_from_stored_membership(stored: StoredMembership) -> (r: Self)
        ensures
            r.wf(),
            r.stored_membership == stored,
    {
        Self::new(stored.log_id, stored.membership)
    }

    /// The effective membership of `membership`, stored at the entry `log_id`.
    pub fn from_log_id<LID: RaftLogId>(log_id: &LID, membership: Membership) -> (r: Self)
        ensures
            r.wf(),
            r.stored_membership.log_id == Some(
                LogId {
                    leader_id: CommittedLeaderId { term: log_id.spec_term() },
                    index: log_id.spec_index(),
                },
            ),
            r.stored_membership.membership == membership,
    {
        let id = LogId::new(log_id.committed_leader_id(), log_id.index());
        Self::new(Some(id), membership)
    }

    /// The stored membership in effect.
    pub fn stored_membership(&self) -> (r: &StoredMembership)
        ensures
            *r == self.stored_membership,
    {
        &self.stored_membership
    }

    /// The id of the log entry that stored this membership.
    pub fn log_id(&self) -> (r: &Option<LogId>)
        ensures
            *r == self.stored_membership.log_id,
    {
        self.stored_membership.log_id()
    }

    /// The membership in effect.
    pub fn membership(&self) -> (r: &Membership)
        ensures
            *r == self.stored_membership.membership,
    {
        self.stored_membership.membership()
    }

    /// Whether `node_id` is a voter.
    pub fn is_voter(&self, node_id: &u64) -> (r: bool)
        ensures
            r == self.stored_membership.membership.spec_voter_ids().contains(*node_id),
    {
        self.membership().is_voter(node_id)
    }

    /// The ids of all voters.
    pub fn voter_ids(&self) -> (r: &BTreeSet<u64>)
        ensures
            r@ == self.voter_ids@,
    {
        &self.voter_ids
    }

    /// The ids of the nodes that are not voters.
    pub fn learner_ids(&self) -> (r: BTreeSet<u64>)
        ensures
            r@ == self.stored_membership.membership.spec_learner_ids(),
    {
        self.membership().learner_ids()
    }

    /// The node with id `node_id`, voter or learner.
    pub fn get_node(&self, node_id: &u64) -> (r: Option<&BasicNode>)
        ensures
            r.is_some() == self.stored_membership.membership.nodes@.contains_key(*node_id),
            r matches Some(n) ==> *n == self.stored_membership.membership.nodes@[*node_id],
    {
        self.membership().get_node(node_id)
    }

    /// The nodes, voters and learners.
    pub fn nodes(&self) -> (r: &BTreeMap<u64, BasicNode>)
        ensures
            r@ == self.stored_membership.membership.nodes@,
    {
        self.membership().nodes()
    }

    /// The configs of the quorum set, each as a list of voter ids.
    pub fn get_joint_config(&self) -> (r: &Vec<Vec<u64>>)
        ensures
            r@ == self.quorum_set.children@,
    {
        self.quorum_set.children()
    }
}

impl QuorumSet for EffectiveMembership {
    open spec fn spec_is_quorum(&self, ids: Set<u64>) -> bool {
        is_joint_quorum(self.quorum_set.configs(), ids)
    }

    fn is_quorum(&self, ids: &BTreeSet<u64>) -> (r: bool) {
        self.quorum_set.is_quorum(ids)
    }
}

/// Law: a well-formed effective membership decides quorums as its membership says:
/// a group is a quorum exactly when it holds a majority of every config.
pub proof fn lemma_effective_quorum_is_membership_quorum(em: EffectiveMembership, ids: Set<u64>)
    requires
        em.wf(),
    ensures
        em.spec_is_quorum(ids) <==> is_membership_quorum(
            em.stored_membership.membership.configs_view(),
            ids,
        ),
{
    broadcast use vstd::set::group_set_axioms;

    let configs = em.stored_membership.membership.configs_view();
    let qc = em.quorum_set.configs();
    assert forall|i: int| 0 <= i < configs.len() implies (is_majority(#[trigger] qc[i], ids) <==> 2
        * ids.intersect(configs[i]).len() > configs[i].len()) by {
        qc[i].unique_seq_to_set();
        assert(ids.filter(|x: u64| qc[i].contains(x)) =~= ids.intersect(configs[i]));
    }
    if em.spec_is_quorum(ids) {
        assert forall|i: int| 0 <= i < configs.len() implies 2 * #[trigger] ids.intersect(
            configs[i],
        ).len() > configs[i].len() by {
            assert(is_majority(qc[i], ids));
        }
    }
    if is_membership_quorum(configs, ids) {
        assert forall|i: int| 0 <= i < qc.len() implies #[trigger] is_majority(qc[i], ids) by {
            assert(2 * ids.intersect(configs[i]).len() > configs[i].len());
        }
    }
}

} // verus!
