//! The filter engine: which keys a text filter removes from view, keeping
//! every ancestor of a node whose key matches.
use vstd::prelude::*;

use crate::key_set::KeySet;
use crate::model::CgroupModel;
use crate::text::{contains_seq, contains_str};
use crate::tree_facts::{
    lemma_child_counts, lemma_child_node, lemma_children_match, lemma_has_node_trans, lemma_in_children,
    lemma_match_up,
};

verus! {

/// The keys excluded among the subtrees of children `0..i` of `t`.
pub open spec fn excluded_before(t: CgroupModel, i: int, filter: Seq<char>) -> Set<Seq<char>> {
    Set::new(|k: Seq<char>| exists|j: int, n: CgroupModel|
        0 <= j < i && t.children@[j].has_node(n) && n.key() == k && !n.subtree_matches(filter))
}

proof fn lemma_excluded_step(t: CgroupModel, i: int, filter: Seq<char>)
    requires
        0 <= i < t.children@.len(),
    ensures
        excluded_before(t, i + 1, filter) == excluded_before(t, i, filter).union(
            t.children@[i].excluded(filter),
        ),
{
    let c = t.children@[i];
    assert forall|k: Seq<char>| #[trigger] excluded_before(t, i + 1, filter).contains(k)
        implies excluded_before(t, i, filter).union(c.excluded(filter)).contains(k) by {
        let (j, n) = choose|j: int, n: CgroupModel|
            0 <= j < i + 1 && t.children@[j].has_node(n) && n.key() == k && !n.subtree_matches(filter);
        if j == i {
            assert(c.excluded(filter).contains(k));
        } else {
            assert(excluded_before(t, i, filter).contains(k));
        }
    }
    assert forall|k: Seq<char>| #[trigger] excluded_before(t, i, filter).union(c.excluded(filter)).contains(k)
        implies excluded_before(t, i + 1, filter).contains(k) by {
        if c.excluded(filter).contains(k) {
            let n = choose|n: CgroupModel| c.has_node(n) && n.key() == k && !n.subtree_matches(filter);
            assert(t.children@[i].has_node(n));
        } else {
            let (j, n) = choose|j: int, n: CgroupModel|
                0 <= j < i && t.children@[j].has_node(n) && n.key() == k && !n.subtree_matches(filter);
            assert(0 <= j < i + 1 && t.children@[j].has_node(n));
        }
    }
    assert(excluded_before(t, i + 1, filter) =~= excluded_before(t, i, filter).union(c.excluded(filter)));
}

proof fn lemma_excluded_whole(t: CgroupModel, filter: Seq<char>)
    ensures
        t.excluded(filter) == (if t.subtree_matches(filter) {
            excluded_before(t, t.children@.len() as int, filter)
        } else {
            excluded_before(t, t.children@.len() as int, filter).insert(t.key())
        }),
{
    let len = t.children@.len() as int;
    let e = excluded_before(t, len, filter);
    let rhs = if t.subtree_matches(filter) { e } else { e.insert(t.key()) };
    assert forall|k: Seq<char>| #[trigger] t.excluded(filter).contains(k) implies rhs.contains(k) by {
        let n = choose|n: CgroupModel| t.has_node(n) && n.key() == k && !n.subtree_matches(filter);
        if n != t {
            lemma_in_children(t, 0, n);
            let j = choose|j: int| 0 <= j < t.children@.len() && #[trigger] t.children@[j].has_node(n);
            assert(0 <= j < len && t.children@[j].has_node(n) && n.key() == k && !n.subtree_matches(filter));
            assert(e.contains(k));
        }
    }
    assert forall|k: Seq<char>| #[trigger] rhs.contains(k) implies t.excluded(filter).contains(k) by {
        if e.contains(k) {
            let (j, n) = choose|j: int, n: CgroupModel|
                0 <= j < len && t.children@[j].has_node(n) && n.key() == k && !n.subtree_matches(filter);
            lemma_child_node(t, j, n);
        } else {
            assert(t.has_node(t));
        }
    }
    assert(t.excluded(filter) =~= rhs);
}


/// A node whose stored count is 1 has no children.
proof fn lemma_count_one_leaf(t: CgroupModel)
    requires
        t.counts_ok(),
    ensures
        (t.count == 1) == (t.children@.len() == 0),
{
    if t.children@.len() > 0 {
        assert(t.size_from(0) >= 1);
    }
}

/// Records in `set` the excluded keys of the subtree at `cgroup`, and tells
/// whether `cgroup` itself is excluded.
fn should_filter_out(cgroup: &CgroupModel, filter: &str, set: &mut KeySet) -> (r: bool)
    requires
        cgroup.counts_ok(),
        old(set).wf(),
    ensures
        final(set).wf(),
        r == !cgroup.subtree_matches(filter@),
        final(set)@ == old(set)@.union(cgroup.excluded(filter@)),
    decreases cgroup,
{
    proof {
        lemma_count_one_leaf(*cgroup);
        lemma_excluded_whole(*cgroup, filter@);
        lemma_children_match(*cgroup, 0, filter@);
    }
    if cgroup.count == 1 {
        assert(excluded_before(*cgroup, 0, filter@) =~= Set::<Seq<char>>::empty());
        if !contains_str(cgroup.data.full_path.as_str(), filter) {
            set.insert(cgroup.data.full_path.clone());
            assert(final(set)@ =~= old(set)@.union(cgroup.excluded(filter@)));
            return true;
        }
        assert(final(set)@ =~= old(set)@.union(cgroup.excluded(filter@)));
        return false;
    }
    let mut filter_cgroup = true;
    let mut i: usize = 0;
    assert(excluded_before(*cgroup, 0, filter@) =~= Set::<Seq<char>>::empty());
    assert(set@ =~= old(set)@.union(excluded_before(*cgroup, 0, filter@)));
    while i < cgroup.children.len()
        invariant
            cgroup.counts_ok(),
            i <= cgroup.children@.len(),
            set.wf(),
            set@ == old(set)@.union(excluded_before(*cgroup, i as int, filter@)),
            filter_cgroup == (forall|j: int|
                0 <= j < i ==> !(#[trigger] cgroup.children@[j].subtree_matches(filter@))),
        decreases cgroup.children@.len() - i,
    {
        let child = &cgroup.children[i];
        proof {
            lemma_child_counts(*cgroup, i as int);
            lemma_excluded_step(*cgroup, i as int, filter@);
        }
        if should_filter_out(child, filter, set) {
            let ghost mid = set@;
            set.insert(child.data.full_path.clone());
            proof {
                assert(child.has_node(*child));
                assert(child.excluded(filter@).contains(child.key()));
                assert(set@ =~= mid);
            }
        } else {
            filter_cgroup = false;
        }
        assert(set@ =~= old(set)@.union(excluded_before(*cgroup, i + 1, filter@)));
        i = i + 1;
    }
    // A node whose own key matches stays, whatever its children.
    if filter_cgroup && contains_str(cgroup.data.full_path.as_str(), filter) {
        filter_cgroup = false;
    }
    proof {
        if !filter_cgroup && !contains_seq(cgroup.key(), filter@) {
            let j = choose|j: int|
                0 <= j < cgroup.children@.len() && (#[trigger] cgroup.children@[j].subtree_matches(filter@));
            assert(exists|j: int|
                0 <= j < cgroup.children@.len() && (#[trigger] cgroup.children@[j].subtree_matches(filter@)));
        }
    }
    if filter_cgroup {
        set.insert(cgroup.data.full_path.clone());
    }
    assert(final(set)@ =~= old(set)@.union(cgroup.excluded(filter@)));
    filter_cgroup
}

/// Returns the set of full cgroup paths that a filter for `filter` hides.
///
/// A node is hidden exactly when neither its own key nor the key of any of
/// its descendants contains `filter`, so every ancestor of a shown node is
/// shown too: a lone cgroup means little without the path above it.
pub fn calculate_filter_out_set(cgroup: &CgroupModel, filter: &str) -> (r: KeySet)
    requires
        cgroup.counts_ok(),
    ensures
        r.wf(),
        r@ == cgroup.excluded(filter@),
{
    let mut set = KeySet::new();
    should_filter_out(cgroup, filter, &mut set);
    assert(set@ =~= cgroup.excluded(filter@));
    set
}

/// In a well-formed tree, the key of a node is excluded by a filter exactly
/// when neither that node's key nor the key of any of its descendants
/// contains the filter text.
pub proof fn excluded_iff_no_match(t: CgroupModel, filter: Seq<char>, n: CgroupModel)
    requires
        t.wf(),
        t.has_node(n),
    ensures
        t.excluded(filter).contains(n.key()) <==> !n.subtree_matches(filter),
{
    if t.excluded(filter).contains(n.key()) {
        let m = choose|m: CgroupModel| t.has_node(m) && m.key() == n.key() && !m.subtree_matches(filter);
        assert(m == n);
    }
}

/// In a well-formed tree, no ancestor of a node that a filter keeps is
/// excluded by it.
pub proof fn kept_node_keeps_ancestors(t: CgroupModel, filter: Seq<char>, a: CgroupModel, n: CgroupModel)
    requires
        t.wf(),
        t.has_node(a),
        a.has_node(n),
        !t.excluded(filter).contains(n.key()),
    ensures
        !t.excluded(filter).contains(a.key()),
{
    lemma_has_node_trans(t, a, n);
    excluded_iff_no_match(t, filter, n);
    lemma_match_up(a, n, filter);
    excluded_iff_no_match(t, filter, a);
}

} // verus!
