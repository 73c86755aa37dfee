//! Facts about the tree snapshot's spec functions, and a check of its counts.
use vstd::prelude::*;

use crate::model::CgroupModel;



verus! {

/// Each child of a node with true counts has true counts.
pub proof fn lemma_child_counts(t: CgroupModel, i: int)
    requires
        t.counts_ok(),
        0 <= i < t.children@.len(),
    ensures
        t.children@[i].counts_ok(),
{
    lemma_children_counts_from(t, 0, i);
}

proof fn lemma_children_counts_from(t: CgroupModel, k: int, i: int)
    requires
        0 <= k <= i < t.children@.len(),
        t.children_counts_ok(k),
    ensures
        t.children@[i].counts_ok(),
    decreases i - k,
{
    if k < i {
        lemma_children_counts_from(t, k + 1, i);
    }
}

/// `in_children` holds exactly when some child from `k` on holds `n`.
pub proof fn lemma_in_children(t: CgroupModel, k: int, n: CgroupModel)
    requires
        0 <= k,
    ensures
        t.in_children(k, n) <==> exists|j: int|
            k <= j < t.children@.len() && #[trigger] t.children@[j].has_node(n),
    decreases t.children@.len() - k,
{
    if k < t.children@.len() {
        lemma_in_children(t, k + 1, n);
        if t.children@[k].has_node(n) {
            assert(k <= k < t.children@.len() && t.children@[k].has_node(n));
        }
        if exists|j: int| k <= j < t.children@.len() && #[trigger] t.children@[j].has_node(n) {
            let j = choose|j: int| k <= j < t.children@.len() && #[trigger] t.children@[j].has_node(n);
            if j != k {
                assert(k + 1 <= j < t.children@.len() && t.children@[j].has_node(n));
            }
        }
    }
}

/// A node of a child's subtree is a node of the parent's subtree.
pub proof fn lemma_child_node(t: CgroupModel, i: int, n: CgroupModel)
    requires
        0 <= i < t.children@.len(),
        t.children@[i].has_node(n),
    ensures
        t.has_node(n),
{
    lemma_in_children(t, 0, n);
}

/// `children_match` holds exactly when some child from `k` on matches.
pub proof fn lemma_children_match(t: CgroupModel, k: int, f: Seq<char>)
    requires
        0 <= k,
    ensures
        t.children_match(k, f) <==> exists|j: int|
            k <= j < t.children@.len() && #[trigger] t.children@[j].subtree_matches(f),
    decreases t.children@.len() - k,
{
    if k < t.children@.len() {
        lemma_children_match(t, k + 1, f);
        if t.children@[k].subtree_matches(f) {
            assert(k <= k < t.children@.len() && t.children@[k].subtree_matches(f));
        }
        if exists|j: int| k <= j < t.children@.len() && #[trigger] t.children@[j].subtree_matches(f) {
            let j = choose|j: int| k <= j < t.children@.len() && #[trigger] t.children@[j].subtree_matches(f);
            if j != k {
                assert(k + 1 <= j < t.children@.len() && t.children@[j].subtree_matches(f));
            }
        }
    }
}

/// A node of a node of `t` is a node of `t`.
pub proof fn lemma_has_node_trans(t: CgroupModel, a: CgroupModel, n: CgroupModel)
    requires
        t.has_node(a),
        a.has_node(n),
    ensures
        t.has_node(n),
    decreases t,
{
    if a != t {
        lemma_in_children(t, 0, a);
        let j = choose|j: int| 0 <= j < t.children@.len() && #[trigger] t.children@[j].has_node(a);
        lemma_has_node_trans(t.children@[j], a, n);
        lemma_child_node(t, j, n);
    }
}

/// A subtree that holds a matching node matches.
pub proof fn lemma_match_up(a: CgroupModel, n: CgroupModel, f: Seq<char>)
    requires
        a.has_node(n),
        n.subtree_matches(f),
    ensures
        a.subtree_matches(f),
    decreases a,
{
    if n != a {
        lemma_in_children(a, 0, n);
        let j = choose|j: int| 0 <= j < a.children@.len() && #[trigger] a.children@[j].has_node(n);
        lemma_match_up(a.children@[j], n, f);
        lemma_children_match(a, 0, f);
    }
}

proof fn lemma_children_counts_step(t: CgroupModel, k: int)
    requires
        0 <= k,
    ensures
        t.children_counts_ok(k) == (forall|j: int|
            k <= j < t.children@.len() ==> #[trigger] t.children@[j].counts_ok()),
    decreases t.children@.len() - k,
{
    if k < t.children@.len() {
        lemma_children_counts_step(t, k + 1);
        if forall|j: int| k <= j < t.children@.len() ==> #[trigger] t.children@[j].counts_ok() {
            assert(t.children@[k].counts_ok());
            assert forall|j: int| k + 1 <= j < t.children@.len() implies #[trigger] t.children@[j].counts_ok() by {
                assert(k <= j < t.children@.len());
            }
        }
        if t.children_counts_ok(k) {
            assert forall|j: int| k <= j < t.children@.len() implies #[trigger] t.children@[j].counts_ok() by {
                if j > k {
                    assert(k + 1 <= j < t.children@.len());
                }
            }
        }
    }
}

impl CgroupModel {
    /// Checks that every stored `count` in the subtree is the size of its
    /// subtree.
    pub fn counts_valid(&self) -> (r: bool)
        ensures
            r == self.counts_ok(),
        decreases self,
    {
        let n = self.children.len();
        let mut sum: usize = 0;
        let mut i: usize = n;
        proof {
            lemma_children_counts_step(*self, 0);
        }
        assert(self.size_from(n as int) == 0);
        while i > 0
            invariant
                n == self.children@.len(),
                i <= n,
                sum < usize::MAX,
                sum == self.size_from(i as int),
                forall|j: int| i <= j < n ==> #[trigger] self.children@[j].counts_ok(),
            decreases i,
        {
            let c = &self.children[i - 1];
            if !c.counts_valid() {
                proof {
                    lemma_children_counts_step(*self, 0);
                }
                return false;
            }
            if sum >= usize::MAX - c.count {
                proof {
                    assert(self.size_from(i - 1) == 1 + c.size_from(0) + self.size_from(i as int));
                    lemma_children_counts_step(*self, 0);
                    if self.counts_ok() {
                        lemma_size_from_lower(*self, 0, i - 1);
                    }
                }
                return false;
            }
            sum = sum + c.count;
            i = i - 1;
        }
        proof {
            lemma_children_counts_step(*self, 0);
        }
        sum + 1 == self.count
    }
}

proof fn lemma_size_from_lower(t: CgroupModel, k: int, i: int)
    requires
        0 <= k <= i,
    ensures
        t.size_from(k) >= t.size_from(i),
    decreases i - k,
{
    if k < i {
        lemma_size_from_lower(t, k + 1, i);
    }
}

} // verus!
