//! What the rows of a walk are in two cases of note: nothing hidden, and
//! the collapse-all-top-level rule.
use vstd::prelude::*;

use crate::cgroup_tabs::{line_text, node_rows, order_rows, row_key, CgroupViewItem};
use crate::model::{CgroupModel, SingleCgroupModelFieldId};
use crate::sort::{child_order, identity_order, insert_ordered, sorted_prefix};

verus! {

/// The size of the subtree of child `i`, or 0 when there is no such child.
pub open spec fn child_size(t: CgroupModel, i: usize) -> nat {
    if i < t.children@.len() {
        t.children@[i as int].size()
    } else {
        0
    }
}

/// The total size of the subtrees of the children that `s` names.
pub open spec fn size_of_children(t: CgroupModel, s: Seq<usize>) -> nat
    decreases s.len(),
{
    if s.len() == 0 {
        0
    } else {
        size_of_children(t, s.drop_last()) + child_size(t, s.last())
    }
}

proof fn lemma_size_push(t: CgroupModel, s: Seq<usize>, x: usize)
    ensures
        size_of_children(t, s.push(x)) == size_of_children(t, s) + child_size(t, x),
{
    assert(s.push(x).drop_last() =~= s);
}

proof fn lemma_size_single(t: CgroupModel, x: usize)
    ensures
        size_of_children(t, seq![x]) == child_size(t, x),
{
    assert(seq![x].drop_last() =~= Seq::<usize>::empty());
    assert(size_of_children(t, Seq::<usize>::empty()) == 0);
    assert(seq![x].last() == x);
}

proof fn lemma_size_prepend(t: CgroupModel, x: usize, s: Seq<usize>)
    ensures
        size_of_children(t, seq![x] + s) == size_of_children(t, seq![x]) + size_of_children(t, s),
    decreases s.len(),
{
    if s.len() > 0 {
        assert((seq![x] + s).drop_last() =~= seq![x] + s.drop_last());
        lemma_size_prepend(t, x, s.drop_last());
    } else {
        assert(seq![x] + s =~= seq![x]);
    }
    assert(seq![x].drop_last() =~= Seq::<usize>::empty());
}

proof fn lemma_size_insert(t: CgroupModel, f: SingleCgroupModelFieldId, s: Seq<usize>, x: usize)
    ensures
        size_of_children(t, insert_ordered(t.children@, f, s, x)) == size_of_children(t, s.push(x)),
    decreases s.len(),
{
    if s.len() > 0 && !crate::sort::child_le(t.children@, f, s.last(), x) {
        lemma_size_insert(t, f, s.drop_last(), x);
        let r = insert_ordered(t.children@, f, s.drop_last(), x);
        lemma_size_push(t, r, s.last());
        lemma_size_push(t, s.drop_last(), x);
        lemma_size_push(t, s, x);
        assert(size_of_children(t, s) == size_of_children(t, s.drop_last()) + child_size(t, s.last()));
    } else if s.len() == 0 {
        assert(seq![x] =~= s.push(x));
    }
}

proof fn lemma_size_sorted(t: CgroupModel, f: SingleCgroupModelFieldId, n: nat)
    ensures
        size_of_children(t, sorted_prefix(t.children@, f, n)) == size_of_children(t, identity_order(n)),
    decreases n,
{
    if n > 0 {
        lemma_size_sorted(t, f, (n - 1) as nat);
        lemma_size_insert(t, f, sorted_prefix(t.children@, f, (n - 1) as nat), (n - 1) as usize);
        assert(identity_order(n).drop_last() =~= identity_order((n - 1) as nat));
        assert(sorted_prefix(t.children@, f, (n - 1) as nat).push((n - 1) as usize).drop_last()
            =~= sorted_prefix(t.children@, f, (n - 1) as nat));
    } else {
        assert(identity_order(0) =~= Seq::<usize>::empty());
    }
}

proof fn lemma_size_reverse(t: CgroupModel, s: Seq<usize>)
    ensures
        size_of_children(t, s.reverse()) == size_of_children(t, s),
    decreases s.len(),
{
    if s.len() > 0 {
        lemma_size_reverse(t, s.drop_last());
        assert(s.reverse() =~= seq![s.last()] + s.drop_last().reverse());
        lemma_size_prepend(t, s.last(), s.drop_last().reverse());
        lemma_size_single(t, s.last());
    } else {
        assert(s.reverse() =~= s);
    }
}

proof fn lemma_size_from_bound(t: CgroupModel, k: int)
    requires
        0 <= k <= t.children@.len(),
    ensures
        t.size_from(k) >= t.children@.len() - k,
    decreases t.children@.len() - k,
{
    if k < t.children@.len() {
        lemma_size_from_bound(t, k + 1);
    }
}

proof fn lemma_size_identity(t: CgroupModel, k: int)
    requires
        0 <= k <= t.children@.len(),
        t.children@.len() <= usize::MAX,
    ensures
        size_of_children(t, identity_order(t.children@.len()).subrange(k, t.children@.len() as int)) == t.size_from(k),
    decreases t.children@.len() - k,
{
    let n = t.children@.len() as int;
    let id = identity_order(t.children@.len());
    if k < n {
        lemma_size_identity(t, k + 1);
        assert(id.subrange(k, n) =~= seq![k as usize] + id.subrange(k + 1, n));
        lemma_size_prepend(t, k as usize, id.subrange(k + 1, n));
        lemma_size_single(t, k as usize);
        assert((k as usize) as int == k);
        assert(child_size(t, k as usize) == t.children@[k].size());
        assert(t.size_from(k) == 1 + t.children@[k].size_from(0) + t.size_from(k + 1));
    } else {
        assert(id.subrange(k, n) =~= Seq::<usize>::empty());
    }
}

proof fn lemma_order_size(t: CgroupModel) -> (ord: Seq<usize>)
    requires
        t.children@.len() <= usize::MAX,
    ensures
        forall|sort: Option<SingleCgroupModelFieldId>, rev: bool|
            size_of_children(t, #[trigger] child_order(t, sort, rev)) == t.size_from(0),
{
    let n = t.children@.len();
    lemma_size_identity(t, 0);
    assert(identity_order(n).subrange(0, n as int) =~= identity_order(n));
    assert forall|sort: Option<SingleCgroupModelFieldId>, rev: bool|
        size_of_children(t, #[trigger] child_order(t, sort, rev)) == t.size_from(0) by {
        if let Some(f) = sort {
            lemma_size_sorted(t, f, n);
            lemma_size_reverse(t, sorted_prefix(t.children@, f, n));
        }
    }
    identity_order(n)
}

proof fn lemma_node_rows_len(
    t: CgroupModel,
    level: nat,
    items: Seq<CgroupViewItem>,
    offset: nat,
    sort: Option<SingleCgroupModelFieldId>,
    reverse: bool,
)
    requires
        t.counts_ok(),
    ensures
        node_rows(t, level, items, offset, Set::empty(), Set::empty(), false, sort, reverse).len() == t.size(),
    decreases t, child_order(t, sort, reverse).len() + 1,
{
    lemma_size_from_bound(t, 0);
    let ord = child_order(t, sort, reverse);
    lemma_order_rows_len(t, ord, 0, crate::cgroup_tabs::child_level(level), items, offset, sort, reverse);
    lemma_order_size(t);
    assert(ord.subrange(0, ord.len() as int) =~= ord);
}

proof fn lemma_order_rows_len(
    t: CgroupModel,
    ord: Seq<usize>,
    k: int,
    level: nat,
    items: Seq<CgroupViewItem>,
    offset: nat,
    sort: Option<SingleCgroupModelFieldId>,
    reverse: bool,
)
    requires
        0 <= k <= ord.len(),
        t.counts_ok(),
    ensures
        order_rows(t, ord, k, level, items, offset, Set::empty(), Set::empty(), false, sort, reverse).len()
            == size_of_children(t, ord.subrange(k, ord.len() as int)),
    decreases t, ord.len() - k,
{
    if k < ord.len() {
        lemma_order_rows_len(t, ord, k + 1, level, items, offset, sort, reverse);
        if ord[k] < t.children@.len() {
            crate::tree_facts::lemma_child_counts(t, ord[k] as int);
            lemma_node_rows_len(t.children@[ord[k] as int], level, items, offset, sort, reverse);
        }
        assert(ord.subrange(k, ord.len() as int) =~= seq![ord[k]] + ord.subrange(k + 1, ord.len() as int));
        lemma_size_prepend(t, ord[k], ord.subrange(k + 1, ord.len() as int));
        lemma_size_single(t, ord[k]);
    } else {
        assert(ord.subrange(k, ord.len() as int) =~= Seq::<usize>::empty());
    }
}

/// With no filter, nothing collapsed and the collapse-all-top-level rule
/// off, the walk yields one row per node of the tree, whatever the sort.
pub proof fn rows_cover_every_node(
    t: CgroupModel,
    items: Seq<CgroupViewItem>,
    offset: nat,
    sort: Option<SingleCgroupModelFieldId>,
    reverse: bool,
)
    requires
        t.counts_ok(),
    ensures
        node_rows(t, 0, items, offset, Set::empty(), Set::empty(), false, sort, reverse).len() == t.size(),
{
    lemma_node_rows_len(t, 0, items, offset, sort, reverse);
}

proof fn lemma_insert_keeps(cs: Seq<CgroupModel>, f: SingleCgroupModelFieldId, s: Seq<usize>, x: usize, y: usize)
    requires
        y == x || s.contains(y),
    ensures
        insert_ordered(cs, f, s, x).contains(y),
    decreases s.len(),
{
    if s.len() == 0 {
        assert(seq![x][0] == x);
    } else if crate::sort::child_le(cs, f, s.last(), x) {
        if y == x {
            assert(s.push(x)[s.len() as int] == x);
        } else {
            let m = choose|m: int| 0 <= m < s.len() && s[m] == y;
            assert(s.push(x)[m] == y);
        }
    } else {
        let r = insert_ordered(cs, f, s.drop_last(), x);
        if y == s.last() {
            assert(r.push(s.last())[r.len() as int] == y);
        } else {
            if y != x {
                let m = choose|m: int| 0 <= m < s.len() && s[m] == y;
                assert(m < s.len() - 1);
                assert(s.drop_last()[m] == y);
            }
            lemma_insert_keeps(cs, f, s.drop_last(), x, y);
            let m2 = choose|m: int| 0 <= m < r.len() && r[m] == y;
            assert(r.push(s.last())[m2] == y);
        }
    }
}

proof fn lemma_sorted_has(cs: Seq<CgroupModel>, f: SingleCgroupModelFieldId, n: nat, j: nat)
    requires
        j < n <= usize::MAX,
    ensures
        sorted_prefix(cs, f, n).contains(j as usize),
    decreases n,
{
    if j + 1 == n {
        lemma_insert_keeps(cs, f, sorted_prefix(cs, f, (n - 1) as nat), (n - 1) as usize, j as usize);
    } else {
        lemma_sorted_has(cs, f, (n - 1) as nat, j);
        lemma_insert_keeps(cs, f, sorted_prefix(cs, f, (n - 1) as nat), (n - 1) as usize, j as usize);
    }
}

/// Every child index stands somewhere in the visiting order.
proof fn lemma_order_has(t: CgroupModel, sort: Option<SingleCgroupModelFieldId>, reverse: bool, j: int) -> (m: int)
    requires
        0 <= j < t.children@.len(),
        t.children@.len() <= usize::MAX,
    ensures
        0 <= m < child_order(t, sort, reverse).len(),
        child_order(t, sort, reverse)[m] == j as usize,
{
    let n = t.children@.len();
    match sort {
        None => {
            assert(identity_order(n)[j] == j as usize);
            j
        },
        Some(f) => {
            lemma_sorted_has(t.children@, f, n, j as nat);
            let s = sorted_prefix(t.children@, f, n);
            let m = choose|m: int| 0 <= m < s.len() && s[m] == j as usize;
            if reverse {
                assert(s.reverse()[s.len() - 1 - m] == j as usize);
                s.len() - 1 - m
            } else {
                m
            }
        },
    }
}

proof fn lemma_order_rows_has(
    t: CgroupModel,
    ord: Seq<usize>,
    k: int,
    m: int,
    level: nat,
    items: Seq<CgroupViewItem>,
    offset: nat,
    sort: Option<SingleCgroupModelFieldId>,
    reverse: bool,
    e: (Seq<char>, Seq<char>),
)
    requires
        0 <= k <= m < ord.len(),
        ord[m] < t.children@.len(),
        node_rows(t.children@[ord[m] as int], level, items, offset, Set::empty(), Set::empty(), false, sort, reverse).contains(e),
    ensures
        order_rows(t, ord, k, level, items, offset, Set::empty(), Set::empty(), false, sort, reverse).contains(e),
    decreases m - k,
{
    let rest = order_rows(t, ord, k + 1, level, items, offset, Set::empty(), Set::empty(), false, sort, reverse);
    if k < m {
        lemma_order_rows_has(t, ord, k + 1, m, level, items, offset, sort, reverse, e);
        let i = choose|i: int| 0 <= i < rest.len() && rest[i] == e;
        if ord[k] < t.children@.len() {
            let head = node_rows(t.children@[ord[k] as int], level, items, offset, Set::empty(), Set::empty(), false, sort, reverse);
            assert((head + rest)[head.len() + i] == e);
        } else {
            assert(rest[i] == e);
        }
    } else {
        let head = node_rows(t.children@[ord[k] as int], level, items, offset, Set::empty(), Set::empty(), false, sort, reverse);
        let i = choose|i: int| 0 <= i < head.len() && head[i] == e;
        assert((head + rest)[i] == e);
    }
}

/// With no filter, nothing collapsed and the collapse-all-top-level rule
/// off, every node of the tree has its own row, whatever the sort: its
/// text and its key stand among the rows.
pub proof fn every_node_has_a_row(
    t: CgroupModel,
    level: nat,
    n: CgroupModel,
    items: Seq<CgroupViewItem>,
    offset: nat,
    sort: Option<SingleCgroupModelFieldId>,
    reverse: bool,
)
    requires
        t.counts_ok(),
        t.has_node(n),
    ensures
        node_rows(t, level, items, offset, Set::empty(), Set::empty(), false, sort, reverse).contains(
            (line_text(items, n.data, false, offset), row_key(n)),
        ),
    decreases t,
{
    let e = (line_text(items, n.data, false, offset), row_key(n));
    let ord = child_order(t, sort, reverse);
    let rest = order_rows(t, ord, 0, crate::cgroup_tabs::child_level(level), items, offset, Set::empty(), Set::empty(), false, sort, reverse);
    if n == t {
        assert((seq![e] + rest)[0] == e);
    } else {
        crate::tree_facts::lemma_in_children(t, 0, n);
        let j = choose|j: int| 0 <= j < t.children@.len() && #[trigger] t.children@[j].has_node(n);
        crate::tree_facts::lemma_child_counts(t, j);
        every_node_has_a_row(t.children@[j], crate::cgroup_tabs::child_level(level), n, items, offset, sort, reverse);
        lemma_size_from_bound(t, 0);
        let m = lemma_order_has(t, sort, reverse, j);
        lemma_order_rows_has(t, ord, 0, m, crate::cgroup_tabs::child_level(level), items, offset, sort, reverse, e);
        let i = choose|i: int| 0 <= i < rest.len() && rest[i] == e;
        assert((seq![(line_text(items, t.data, false, offset), row_key(t))] + rest)[1 + i] == e);
    }
}

/// One collapsed row for each child `ord[k..]` of `t` that is shown.
pub open spec fn top_level_rows(
    t: CgroupModel,
    ord: Seq<usize>,
    k: int,
    items: Seq<CgroupViewItem>,
    offset: nat,
    excluded: Set<Seq<char>>,
) -> Seq<(Seq<char>, Seq<char>)>
    decreases ord.len() - k,
{
    if 0 <= k < ord.len() {
        let rest = top_level_rows(t, ord, k + 1, items, offset, excluded);
        if ord[k] < t.children@.len() && !excluded.contains(t.children@[ord[k] as int].key()) {
            let c = t.children@[ord[k] as int];
            seq![(line_text(items, c.data, true, offset), row_key(c))] + rest
        } else {
            rest
        }
    } else {
        Seq::empty()
    }
}

proof fn lemma_top_level_rows(
    t: CgroupModel,
    ord: Seq<usize>,
    k: int,
    items: Seq<CgroupViewItem>,
    offset: nat,
    excluded: Set<Seq<char>>,
    collapsed: Set<Seq<char>>,
    sort: Option<SingleCgroupModelFieldId>,
    reverse: bool,
)
    requires
        0 <= k <= ord.len(),
    ensures
        order_rows(t, ord, k, 1, items, offset, excluded, collapsed, true, sort, reverse)
            == top_level_rows(t, ord, k, items, offset, excluded),
    decreases ord.len() - k,
{
    if k < ord.len() {
        lemma_top_level_rows(t, ord, k + 1, items, offset, excluded, collapsed, sort, reverse);
        if ord[k] < t.children@.len() {
            let c = t.children@[ord[k] as int];
            assert(node_rows(c, 1, items, offset, excluded, collapsed, true, sort, reverse) =~= if excluded.contains(c.key()) {
                Seq::empty()
            } else {
                seq![(line_text(items, c.data, true, offset), row_key(c))]
            });
        }
    }
}

/// Under the collapse-all-top-level rule, a shown, expanded root yields its
/// own row and then one collapsed row for each shown direct child, in child
/// order, and nothing deeper, whatever else the collapse set holds.
pub proof fn collapse_all_top_level_rows(
    t: CgroupModel,
    items: Seq<CgroupViewItem>,
    offset: nat,
    excluded: Set<Seq<char>>,
    collapsed: Set<Seq<char>>,
    sort: Option<SingleCgroupModelFieldId>,
    reverse: bool,
)
    requires
        !excluded.contains(t.key()),
        !collapsed.contains(t.key()),
    ensures
        node_rows(t, 0, items, offset, excluded, collapsed, true, sort, reverse)
            == seq![(line_text(items, t.data, false, offset), row_key(t))]
                + top_level_rows(t, child_order(t, sort, reverse), 0, items, offset, excluded),
{
    lemma_top_level_rows(t, child_order(t, sort, reverse), 0, items, offset, excluded, collapsed, sort, reverse);
}

} // verus!
