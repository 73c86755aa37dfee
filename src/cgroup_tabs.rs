//! Column sets ("tabs") of the cgroup view, the rendering of one row, and
//! the explicit-stack walk that turns the tree into rows.
use vstd::prelude::*;

use crate::cgroup_view::CgroupState;
use crate::filter::calculate_filter_out_set;
use crate::key_set::KeySet;
use crate::model::{CgroupModel, SingleCgroupModel, SingleCgroupModelFieldId};
use crate::sort::{child_order, children_order};

verus! {

/// One column of a tab: the field shown, and a title that replaces the
/// field's default title.
#[derive(Clone, Debug)]
pub struct CgroupViewItem {
    pub field_id: SingleCgroupModelFieldId,
    pub title: Option<String>,
}

impl CgroupViewItem {
    /// The title shown above the column.
    pub open spec fn spec_title(self) -> Seq<char> {
        match self.title {
            Some(t) => t@,
            None => self.field_id.spec_title(),
        }
    }

    /// A column for `field_id` under its default title.
    pub fn from_default(field_id: SingleCgroupModelFieldId) -> (r: CgroupViewItem)
        ensures
            r.field_id == field_id,
            r.title is None,
    {
        CgroupViewItem { field_id, title: None }
    }

    /// The same column under the title `title`.
    pub fn with_title(self, title: &str) -> (r: CgroupViewItem)
        ensures
            r.field_id == self.field_id,
            r.title is Some,
            r.spec_title() == title@,
    {
        CgroupViewItem { field_id: self.field_id, title: Some(title.to_string()) }
    }

    /// The title shown above the column.
    pub fn render_title(&self) -> (r: String)
        ensures
            r@ == self.spec_title(),
    {
        match &self.title {
            Some(t) => t.clone(),
            None => String::from_str(self.field_id.title()),
        }
    }
}

/// The titles of a tab's columns; the first `pinned_titles` stay in view
/// when the columns scroll sideways.
pub struct ColumnTitles {
    pub titles: Vec<String>,
    pub pinned_titles: usize,
}

/// The columns of one display mode. The name column always comes first and
/// is not part of `view_items`.
#[derive(Clone, Debug)]
pub struct CgroupTab {
    pub view_items: Vec<CgroupViewItem>,
}

/// Two spaces per level of depth.
pub open spec fn indent(depth: nat) -> Seq<char>
    decreases depth,
{
    if depth == 0 {
        Seq::empty()
    } else {
        indent((depth - 1) as nat) + seq![' ', ' ']
    }
}

/// The name column: indentation, a marker that tells a collapsed node from
/// an expanded one, and the node's name.
pub open spec fn name_cell(d: SingleCgroupModel, collapsed: bool) -> Seq<char> {
    indent(d.depth as nat) + (if collapsed { seq!['+', ' '] } else { seq!['-', ' '] }) + d.name@
}

/// The cells of columns `k..`, each followed by a space.
pub open spec fn item_cells(items: Seq<CgroupViewItem>, d: SingleCgroupModel, k: int) -> Seq<char>
    decreases items.len() - k,
{
    if 0 <= k < items.len() {
        d.rendered(items[k].field_id) + seq![' '] + item_cells(items, d, k + 1)
    } else {
        Seq::empty()
    }
}

/// The text of the row for `d`, with the first `offset` item columns
/// scrolled out of view.
pub open spec fn line_text(items: Seq<CgroupViewItem>, d: SingleCgroupModel, collapsed: bool, offset: nat) -> Seq<char> {
    name_cell(d, collapsed) + seq![' '] + item_cells(items, d, offset as int)
}

/// The key that a row carries: the node's key, tagged when the node was
/// recreated.
pub open spec fn row_key(t: CgroupModel) -> Seq<char> {
    if t.recreate_flag {
        "[RECREATED] "@ + t.key()
    } else {
        t.key()
    }
}

/// Whether the walk shows `t`, at `level` (0 for the root, 1 for its
/// children, 2 below), without its children.
pub open spec fn is_collapsed(t: CgroupModel, level: nat, collapsed: Set<Seq<char>>, all_top: bool) -> bool {
    collapsed.contains(t.key()) || (all_top && level == 1)
}

pub open spec fn child_level(level: nat) -> nat {
    if level == 0 { 1 } else { 2 }
}

/// The rows of the subtree at `t`, in pre-order: nothing for an excluded
/// node; else its own row, then, unless it is collapsed, the rows of its
/// children in `child_order`.
pub open spec fn node_rows(
    t: CgroupModel,
    level: nat,
    items: Seq<CgroupViewItem>,
    offset: nat,
    excluded: Set<Seq<char>>,
    collapsed: Set<Seq<char>>,
    all_top: bool,
    sort: Option<SingleCgroupModelFieldId>,
    reverse: bool,
) -> Seq<(Seq<char>, Seq<char>)>
    decreases t, child_order(t, sort, reverse).len() + 1,
{
    if excluded.contains(t.key()) {
        Seq::empty()
    } else {
        let c = is_collapsed(t, level, collapsed, all_top);
        seq![(line_text(items, t.data, c, offset), row_key(t))] + if c {
            Seq::empty()
        } else {
            order_rows(t, child_order(t, sort, reverse), 0, child_level(level), items, offset, excluded, collapsed, all_top, sort, reverse)
        }
    }
}

/// The rows of the subtrees of the children `ord[k..]` of `t`, in turn.
pub open spec fn order_rows(
    t: CgroupModel,
    ord: Seq<usize>,
    k: int,
    level: nat,
    items: Seq<CgroupViewItem>,
    offset: nat,
    excluded: Set<Seq<char>>,
    collapsed: Set<Seq<char>>,
    all_top: bool,
    sort: Option<SingleCgroupModelFieldId>,
    reverse: bool,
) -> Seq<(Seq<char>, Seq<char>)>
    decreases t, ord.len() - k,
{
    if 0 <= k < ord.len() {
        let rest = order_rows(t, ord, k + 1, level, items, offset, excluded, collapsed, all_top, sort, reverse);
        if ord[k] < t.children@.len() {
            node_rows(t.children@[ord[k] as int], level, items, offset, excluded, collapsed, all_top, sort, reverse) + rest
        } else {
            rest
        }
    } else {
        Seq::empty()
    }
}

/// The text and key of each row.
pub open spec fn rows_view(v: Seq<(String, String)>) -> Seq<(Seq<char>, Seq<char>)> {
    v.map_values(|p: (String, String)| (p.0@, p.1@))
}

/// The rows still owed for the nodes on `stack`, the top of the stack first.
pub open spec fn pending(
    stack: Seq<(&CgroupModel, u8)>,
    items: Seq<CgroupViewItem>,
    offset: nat,
    excluded: Set<Seq<char>>,
    collapsed: Set<Seq<char>>,
    all_top: bool,
    sort: Option<SingleCgroupModelFieldId>,
    reverse: bool,
) -> Seq<(Seq<char>, Seq<char>)>
    decreases stack.len(),
{
    if stack.len() == 0 {
        Seq::empty()
    } else {
        node_rows(*stack.last().0, stack.last().1 as nat, items, offset, excluded, collapsed, all_top, sort, reverse)
            + pending(stack.drop_last(), items, offset, excluded, collapsed, all_top, sort, reverse)
    }
}

pub open spec fn offset_of(offset: Option<usize>) -> nat {
    match offset {
        Some(o) => o as nat,
        None => 0,
    }
}

impl CgroupTab {
    pub fn new(view_items: Vec<CgroupViewItem>) -> (r: CgroupTab)
        ensures
            r.view_items@ == view_items@,
    {
        CgroupTab { view_items }
    }

    /// The column titles: the name column's, then each item's.
    pub fn get_titles(&self) -> (r: ColumnTitles)
        ensures
            r.pinned_titles == 1,
            r.titles@.len() == self.view_items@.len() + 1,
            r.titles@[0]@ == "Name"@,
            forall|i: int| 0 <= i < self.view_items@.len() ==>
                #[trigger] r.titles@[i + 1]@ == self.view_items@[i].spec_title(),
    {
        let mut titles: Vec<String> = Vec::new();
        titles.push(String::from_str(SingleCgroupModelFieldId::Name.title()));
        let mut i: usize = 0;
        while i < self.view_items.len()
            invariant
                i <= self.view_items@.len(),
                titles@.len() == i + 1,
                titles@[0]@ == "Name"@,
                forall|j: int| 0 <= j < i ==> #[trigger] titles@[j + 1]@ == self.view_items@[j].spec_title(),
            decreases self.view_items@.len() - i,
        {
            titles.push(self.view_items[i].render_title());
            i = i + 1;
        }
        ColumnTitles { titles, pinned_titles: 1 }
    }

    /// The text of the row for `model`.
    pub fn get_line(&self, model: &SingleCgroupModel, collapsed: bool, offset: Option<usize>) -> (r: String)
        ensures
            r@ == line_text(self.view_items@, *model, collapsed, offset_of(offset)),
    {
        let mut line = String::new();
        let mut d: u32 = 0;
        proof {
            reveal_strlit("  ");
            reveal_strlit("+ ");
            reveal_strlit("- ");
            reveal_strlit(" ");
        }
        while d < model.depth
            invariant
                d <= model.depth,
                line@ == indent(d as nat),
            decreases model.depth - d,
        {
            proof {
                reveal_strlit("  ");
                assert("  "@ =~= seq![' ', ' ']);
            }
            line.append("  ");
            d = d + 1;
            assert(indent(d as nat) == indent((d - 1) as nat) + seq![' ', ' ']);
        }
        if collapsed {
            line.append("+ ");
        } else {
            line.append("- ");
        }
        line.append(model.name.as_str());
        line.append(" ");
        let ghost head = line@;
        let mut k: usize = match offset {
            Some(o) => o,
            None => 0,
        };
        let items = &self.view_items;
        if k > items.len() {
            k = items.len();
            assert(item_cells(items@, *model, offset_of(offset) as int) == Seq::<char>::empty());
        }
        assert(head + item_cells(items@, *model, k as int) == line_text(items@, *model, collapsed, offset_of(offset)));
        while k < items.len()
            invariant
                k <= items@.len(),
                head == name_cell(*model, collapsed) + seq![' '],
                line@ + item_cells(items@, *model, k as int) == line_text(items@, *model, collapsed, offset_of(offset)),
            decreases items@.len() - k,
        {
            let ghost before = line@;
            model.render_into(items[k].field_id, &mut line);
            proof {
                reveal_strlit(" ");
                assert(" "@ =~= seq![' ']);
            }
            line.append(" ");
            assert(before + item_cells(items@, *model, k as int) =~= line@ + item_cells(items@, *model, k + 1));
            k = k + 1;
        }
        assert(line@ =~= line@ + item_cells(items@, *model, k as int));
        line
    }
    /// The rows of the current snapshot under `state`, with the first
    /// `offset` item columns scrolled out of view.
    pub fn get_rows(&self, state: &CgroupState, offset: Option<usize>) -> (r: Vec<(String, String)>)
        requires
            state.wf(),
        ensures
            rows_view(r@) == node_rows(
                state.model,
                0,
                self.view_items@,
                offset_of(offset),
                state.excluded(),
                state.collapsed_cgroups@,
                state.collapse_all_top_level_cgroup,
                state.sort_order,
                state.reverse,
            ),
    {
        let filter_out_set = match &state.filter {
            Some(f) => calculate_filter_out_set(&state.model, f.as_str()),
            None => KeySet::new(),
        };
        let mut rows: Vec<(String, String)> = Vec::new();
        self.output_cgroup(&state.model, state, &filter_out_set, &mut rows, offset);
        assert(rows_view(rows@) =~= Seq::<(Seq<char>, Seq<char>)>::empty() + rows_view(rows@));
        rows
    }

    /// Appends to `output` the rows of the subtree at `cgroup`, walking it
    /// with an explicit stack: a popped node that `filter_out_set` holds is
    /// skipped with its subtree; any other gives one row, and unless it is
    /// collapsed its children go on the stack last-first, so that they come
    /// off it in `child_order`.
    pub fn output_cgroup(
        &self,
        cgroup: &CgroupModel,
        state: &CgroupState,
        filter_out_set: &KeySet,
        output: &mut Vec<(String, String)>,
        offset: Option<usize>,
    )
        ensures
            rows_view(final(output)@) == rows_view(old(output)@) + node_rows(
                *cgroup,
                0,
                self.view_items@,
                offset_of(offset),
                filter_out_set@,
                state.collapsed_cgroups@,
                state.collapse_all_top_level_cgroup,
                state.sort_order,
                state.reverse,
            ),
    {
        let ghost items = self.view_items@;
        let ghost off = offset_of(offset);
        let ghost excl = filter_out_set@;
        let ghost coll = state.collapsed_cgroups@;
        let ghost all_top = state.collapse_all_top_level_cgroup;
        let ghost sort = state.sort_order;
        let ghost rev = state.reverse;
        let ghost goal = rows_view(output@) + node_rows(*cgroup, 0, items, off, excl, coll, all_top, sort, rev);
        let mut cgroup_stack: Vec<(&CgroupModel, u8)> = Vec::new();
        cgroup_stack.push((cgroup, 0u8));
        proof {
            assert(cgroup_stack@.drop_last() =~= Seq::<(&CgroupModel, u8)>::empty());
            assert(pending(cgroup_stack@.drop_last(), items, off, excl, coll, all_top, sort, rev) =~= Seq::empty());
            assert(cgroup_stack@.last() == (cgroup, 0u8));
            assert(pending(cgroup_stack@, items, off, excl, coll, all_top, sort, rev)
                =~= node_rows(*cgroup, 0, items, off, excl, coll, all_top, sort, rev));
        }
        while cgroup_stack.len() > 0
            invariant
                items == self.view_items@,
                off == offset_of(offset),
                excl == filter_out_set@,
                coll == state.collapsed_cgroups@,
                all_top == state.collapse_all_top_level_cgroup,
                sort == state.sort_order,
                rev == state.reverse,
                rows_view(output@) + pending(cgroup_stack@, items, off, excl, coll, all_top, sort, rev) == goal,
            decreases goal.len() - output@.len(), cgroup_stack@.len(),
        {
            let ghost stack0 = cgroup_stack@;
            let ghost out0 = output@;
            let top = cgroup_stack.pop();
            match top {
                None => {},
                Some((node, level)) => {
                    let ghost rest = cgroup_stack@;
                    proof {
                        assert(rest =~= stack0.drop_last());
                        assert(stack0.last() == (node, level));
                    }
                    let ghost here = node_rows(*node, level as nat, items, off, excl, coll, all_top, sort, rev);
                    assert(pending(stack0, items, off, excl, coll, all_top, sort, rev)
                        == here + pending(rest, items, off, excl, coll, all_top, sort, rev));
                    if !filter_out_set.contains(&node.data.full_path) {
                        let collapsed = state.collapsed_cgroups.contains(&node.data.full_path)
                            || (state.collapse_all_top_level_cgroup && level == 1);
                        let row = self.get_line(&node.data, collapsed, offset);
                        let key = if node.recreate_flag {
                            let mut k = String::from_str("[RECREATED] ");
                            k.append(node.data.full_path.as_str());
                            k
                        } else {
                            node.data.full_path.clone()
                        };
                        let ghost row_v = (row@, key@);
                        output.push((row, key));
                        proof {
                            assert(rows_view(output@) =~= rows_view(out0).push(row_v));
                            assert(row_v == (line_text(items, node.data, collapsed, off), row_key(*node)));
                        }
                        if collapsed {
                            assert(here =~= seq![row_v]);
                            assert(rows_view(output@) + pending(cgroup_stack@, items, off, excl, coll, all_top, sort, rev)
                                =~= rows_view(out0) + pending(stack0, items, off, excl, coll, all_top, sort, rev));
                        } else {
                            let ord = children_order(node, state.sort_order, state.reverse);
                            let child_lv: u8 = if level == 0 { 1 } else { 2 };
                            assert(child_lv as nat == child_level(level as nat));
                            let ghost lv = child_level(level as nat);
                            let mut j: usize = ord.len();
                            assert(order_rows(*node, ord@, j as int, lv, items, off, excl, coll, all_top, sort, rev) =~= Seq::empty());
                            assert(cgroup_stack@ == rest);
                            while j > 0
                                invariant
                                    j <= ord@.len(),
                                    child_lv as nat == lv,
                                    pending(cgroup_stack@, items, off, excl, coll, all_top, sort, rev)
                                        == order_rows(*node, ord@, j as int, lv, items, off, excl, coll, all_top, sort, rev)
                                            + pending(rest, items, off, excl, coll, all_top, sort, rev),
                                decreases j,
                            {
                                j = j - 1;
                                let ghost before = cgroup_stack@;
                                if ord[j] < node.children.len() {
                                    let child = &node.children[ord[j]];
                                    cgroup_stack.push((child, child_lv));
                                    proof {
                                        assert(cgroup_stack@.drop_last() =~= before);
                                    }
                                }
                                assert(pending(cgroup_stack@, items, off, excl, coll, all_top, sort, rev)
                                    =~= order_rows(*node, ord@, j as int, lv, items, off, excl, coll, all_top, sort, rev)
                                        + pending(rest, items, off, excl, coll, all_top, sort, rev));
                            }
                            assert(here =~= seq![row_v] + order_rows(*node, child_order(*node, sort, rev), 0, lv, items, off, excl, coll, all_top, sort, rev));
                            assert(rows_view(output@) + pending(cgroup_stack@, items, off, excl, coll, all_top, sort, rev)
                                =~= rows_view(out0) + pending(stack0, items, off, excl, coll, all_top, sort, rev));
                        }
                    } else {
                        assert(here =~= Seq::empty());
                        assert(pending(cgroup_stack@, items, off, excl, coll, all_top, sort, rev)
                            =~= pending(stack0, items, off, excl, coll, all_top, sort, rev));
                    }
                },
            }
        }
        assert(pending(cgroup_stack@, items, off, excl, coll, all_top, sort, rev) =~= Seq::empty());
        assert(rows_view(output@) =~= goal);
    }
}

} // verus!
