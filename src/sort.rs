//! The order in which a node's children are shown: insertion order when no
//! sort field is active, else a stable ascending sort on the field, reversed
//! when the sort is reversed.
use vstd::prelude::*;

use crate::model::{key_le, CgroupModel, SingleCgroupModelFieldId};

verus! {

/// Child `a` may stand before child `b` when ordering by `f`.
pub open spec fn child_le(cs: Seq<CgroupModel>, f: SingleCgroupModelFieldId, a: usize, b: usize) -> bool {
    key_le(cs[a as int].data.sort_key(f), cs[b as int].data.sort_key(f))
}

/// Inserts index `x` into the ordered `s`, after every entry that may stand
/// before it; ties keep `x` last.
pub open spec fn insert_ordered(cs: Seq<CgroupModel>, f: SingleCgroupModelFieldId, s: Seq<usize>, x: usize) -> Seq<usize>
    decreases s.len(),
{
    if s.len() == 0 {
        seq![x]
    } else if child_le(cs, f, s.last(), x) {
        s.push(x)
    } else {
        insert_ordered(cs, f, s.drop_last(), x).push(s.last())
    }
}

/// A stable insertion sort of the indices `0..n` of `cs` by field `f`.
pub open spec fn sorted_prefix(cs: Seq<CgroupModel>, f: SingleCgroupModelFieldId, n: nat) -> Seq<usize>
    decreases n,
{
    if n == 0 {
        Seq::empty()
    } else {
        insert_ordered(cs, f, sorted_prefix(cs, f, (n - 1) as nat), (n - 1) as usize)
    }
}

/// The indices `0..n` in order.
pub open spec fn identity_order(n: nat) -> Seq<usize> {
    Seq::new(n, |i: int| i as usize)
}

/// The order in which the children of `t` are visited.
pub open spec fn child_order(t: CgroupModel, sort: Option<SingleCgroupModelFieldId>, reverse: bool) -> Seq<usize> {
    match sort {
        None => identity_order(t.children@.len()),
        Some(f) => {
            let s = sorted_prefix(t.children@, f, t.children@.len());
            if reverse {
                s.reverse()
            } else {
                s
            }
        },
    }
}

fn insert_index(cs: &Vec<CgroupModel>, f: SingleCgroupModelFieldId, v: &mut Vec<usize>, x: usize)
    requires
        x < cs@.len(),
        forall|i: int| 0 <= i < old(v)@.len() ==> old(v)@[i] < cs@.len(),
    ensures
        final(v)@ == insert_ordered(cs@, f, old(v)@, x),
        forall|i: int| 0 <= i < final(v)@.len() ==> final(v)@[i] < cs@.len(),
{
    let ghost s = v@;
    let mut j: usize = v.len();
    assert(s.subrange(0, j as int) =~= s);
    assert(s.subrange(j as int, s.len() as int) =~= Seq::<usize>::empty());
    while j > 0 && !cs[v[j - 1]].data.field_le(&cs[x].data, f)
        invariant
            v@ == s,
            j <= s.len(),
            x < cs@.len(),
            forall|i: int| 0 <= i < s.len() ==> s[i] < cs@.len(),
            insert_ordered(cs@, f, s, x) == insert_ordered(cs@, f, s.subrange(0, j as int), x) + s.subrange(j as int, s.len() as int),
        decreases j,
    {
        proof {
            let p = s.subrange(0, j as int);
            assert(p.last() == s[j - 1]);
            assert(p.drop_last() =~= s.subrange(0, j - 1));
            assert(s.subrange(j - 1, s.len() as int) =~= seq![s[j - 1]] + s.subrange(j as int, s.len() as int));
            assert(insert_ordered(cs@, f, p, x) == insert_ordered(cs@, f, s.subrange(0, j - 1), x).push(s[j - 1]));
            assert(insert_ordered(cs@, f, s.subrange(0, j - 1), x).push(s[j - 1]) + s.subrange(j as int, s.len() as int)
                =~= insert_ordered(cs@, f, s.subrange(0, j - 1), x) + s.subrange(j - 1, s.len() as int));
        }
        j = j - 1;
    }
    proof {
        let p = s.subrange(0, j as int);
        if j > 0 {
            assert(p.last() == s[j - 1]);
            assert(insert_ordered(cs@, f, p, x) == p.push(x));
        } else {
            assert(insert_ordered(cs@, f, p, x) == seq![x]);
        }
        assert(insert_ordered(cs@, f, p, x) + s.subrange(j as int, s.len() as int) =~= s.insert(j as int, x));
    }
    v.insert(j, x);
}

/// The order in which the children `cs` are visited under the given sort.
pub fn children_order(t: &CgroupModel, sort: Option<SingleCgroupModelFieldId>, reverse: bool) -> (r: Vec<usize>)
    ensures
        r@ == child_order(*t, sort, reverse),
{
    let cs = &t.children;
    let n = cs.len();
    match sort {
        None => {
            let mut v: Vec<usize> = Vec::new();
            let mut i: usize = 0;
            while i < n
                invariant
                    n == cs@.len(),
                    i <= n,
                    v@ == identity_order(i as nat),
                decreases n - i,
            {
                v.push(i);
                i = i + 1;
                assert(v@ =~= identity_order(i as nat));
            }
            v
        },
        Some(f) => {
            let mut v: Vec<usize> = Vec::new();
            let mut i: usize = 0;
            while i < n
                invariant
                    n == cs@.len(),
                    i <= n,
                    v@ == sorted_prefix(cs@, f, i as nat),
                    forall|k: int| 0 <= k < v@.len() ==> v@[k] < cs@.len(),
                decreases n - i,
            {
                insert_index(cs, f, &mut v, i);
                i = i + 1;
            }
            if reverse {
                let mut w: Vec<usize> = Vec::new();
                let mut k: usize = v.len();
                while k > 0
                    invariant
                        k <= v@.len(),
                        w@ =~= v@.subrange(k as int, v@.len() as int).reverse(),
                    decreases k,
                {
                    k = k - 1;
                    w.push(v[k]);
                    assert(w@ =~= v@.subrange(k as int, v@.len() as int).reverse());
                }
                assert(v@.subrange(0, v@.len() as int) =~= v@);
                w
            } else {
                v
            }
        },
    }
}

} // verus!
