//! The state of a cgroup view: filter, sort, collapse and selection over
//! the current tree snapshot, and the view that renders one tab of it.
use vstd::prelude::*;

use crate::cgroup_tabs::{node_rows, offset_of, rows_view, CgroupTab, ColumnTitles};
use crate::default_tabs::{default_titles, fields_of_tab, tab_by_name, tab_fields};
use crate::key_set::KeySet;
use crate::model::{
    CgroupCpuModelFieldId, CgroupIoModelFieldId, CgroupMemoryModelFieldId, CgroupModel,
    SingleCgroupModelFieldId,
};

verus! {

/// The sort state after selecting `f`: selecting the active field again
/// flips the direction; a new field starts out reversed (largest first).
pub open spec fn sort_after(
    order: Option<SingleCgroupModelFieldId>,
    reverse: bool,
    f: SingleCgroupModelFieldId,
) -> (Option<SingleCgroupModelFieldId>, bool) {
    if order == Some(f) {
        (order, !reverse)
    } else {
        (Some(f), true)
    }
}

/// Selecting the same sort field twice in a row: when it was already the
/// active field, the sort state comes back to what it was; whatever the
/// state was, the field ends up active and not reversed.
pub proof fn set_sort_twice(order: Option<SingleCgroupModelFieldId>, reverse: bool, f: SingleCgroupModelFieldId)
    ensures
        ({
            let once = sort_after(order, reverse, f);
            let twice = sort_after(once.0, once.1, f);
            &&& order == Some(f) ==> twice == (order, reverse)
            &&& twice.0 == Some(f)
            &&& order != Some(f) ==> !twice.1
        }),
{
}

/// Toggling the collapse of the same key twice leaves the collapse set as
/// it was.
pub proof fn toggle_node_twice(keys: Set<Seq<char>>, k: Seq<char>)
    ensures
        toggled(toggled(keys, k), k) == keys,
{
    assert(toggled(toggled(keys, k), k) =~= keys);
}

/// `keys` with `k` added when absent and removed when present.
pub open spec fn toggled(keys: Set<Seq<char>>, k: Seq<char>) -> Set<Seq<char>> {
    if keys.contains(k) {
        keys.remove(k)
    } else {
        keys.insert(k)
    }
}

/// Why a sort by column index was refused: both mean that the caller and
/// the tab it names disagree.
#[derive(Clone, Copy, Debug, PartialEq, Eq, Structural)]
pub enum ColumnSortError {
    /// No tab has the given name.
    UnknownTab,
    /// The tab has no column at the given index.
    OutOfTitleScope,
}

/// The state that one cgroup view keeps across refreshes.
pub struct CgroupState {
    pub collapsed_cgroups: KeySet,
    pub current_selected_cgroup: String,
    pub filter: Option<String>,
    pub sort_order: Option<SingleCgroupModelFieldId>,
    pub reverse: bool,
    pub model: CgroupModel,
    pub collapse_all_top_level_cgroup: bool,
}

impl CgroupState {
    /// The collapse set holds each key once, and the snapshot's counts are
    /// true.
    pub open spec fn wf(&self) -> bool {
        self.collapsed_cgroups.wf() && self.model.counts_ok()
    }

    /// The keys that the current filter hides.
    pub open spec fn excluded(&self) -> Set<Seq<char>> {
        match self.filter {
            Some(f) => self.model.excluded(f@),
            None => Set::empty(),
        }
    }

    /// A fresh state over `model`: nothing collapsed, filtered or sorted,
    /// and the root selected.
    pub fn new(model: CgroupModel) -> (r: CgroupState)
        requires
            model.counts_ok(),
        ensures
            r.wf(),
            r.collapsed_cgroups@ == Set::<Seq<char>>::empty(),
            r.current_selected_cgroup@ == "<root>"@,
            r.filter is None,
            r.sort_order is None,
            !r.reverse,
            r.model == model,
            !r.collapse_all_top_level_cgroup,
    {
        CgroupState {
            collapsed_cgroups: KeySet::new(),
            current_selected_cgroup: String::from_str("<root>"),
            filter: None,
            sort_order: None,
            reverse: false,
            model,
            collapse_all_top_level_cgroup: false,
        }
    }

    pub fn get_filter(&self) -> (r: &Option<String>)
        ensures
            r == self.filter,
    {
        &self.filter
    }

    /// Replaces the filter text; `None` shows every node.
    pub fn set_filter(&mut self, filter: Option<String>)
        ensures
            final(self).filter == filter,
            final(self).collapsed_cgroups == old(self).collapsed_cgroups,
            final(self).sort_order == old(self).sort_order,
            final(self).reverse == old(self).reverse,
            final(self).model == old(self).model,
            final(self).current_selected_cgroup == old(self).current_selected_cgroup,
            final(self).collapse_all_top_level_cgroup == old(self).collapse_all_top_level_cgroup,
    {
        self.filter = filter;
    }

    pub fn get_model(&self) -> (r: &CgroupModel)
        ensures
            r == self.model,
    {
        &self.model
    }

    /// Puts a new snapshot in place of the current one. Collapsed keys that
    /// the new snapshot lacks stay, and are ignored.
    pub fn set_model(&mut self, model: CgroupModel)
        requires
            model.counts_ok(),
        ensures
            final(self).model == model,
            final(self).current_selected_cgroup == old(self).current_selected_cgroup,
            final(self).collapsed_cgroups == old(self).collapsed_cgroups,
            final(self).filter == old(self).filter,
            final(self).sort_order == old(self).sort_order,
            final(self).reverse == old(self).reverse,
            final(self).collapse_all_top_level_cgroup == old(self).collapse_all_top_level_cgroup,
    {
        self.model = model;
    }

    /// Sorts by `sort_order`: the state's direction flips when the field is
    /// already the active one, and starts reversed otherwise. `reverse`, the
    /// caller's copy of the direction, is set to the new direction.
    pub fn set_sort_tag(&mut self, sort_order: SingleCgroupModelFieldId, reverse: &mut bool) -> (r: bool)
        ensures
            r,
            (final(self).sort_order, final(self).reverse) == sort_after(old(self).sort_order, old(self).reverse, sort_order),
            *final(reverse) == final(self).reverse,
            final(self).collapsed_cgroups == old(self).collapsed_cgroups,
            final(self).filter == old(self).filter,
            final(self).model == old(self).model,
            final(self).current_selected_cgroup == old(self).current_selected_cgroup,
            final(self).collapse_all_top_level_cgroup == old(self).collapse_all_top_level_cgroup,
    {
        let same = match self.sort_order {
            Some(cur) => cur == sort_order,
            None => false,
        };
        let rev = if same { !self.reverse } else { true };
        self.sort_order = Some(sort_order);
        self.reverse = rev;
        *reverse = rev;
        true
    }

    /// Sorts by the column at `idx` of the tab named `tab`: column 0 is the
    /// name column, column `i > 0` the tab's item `i - 1`. An unknown tab or
    /// an index past the tab's columns is refused, and nothing changes.
    pub fn set_sort_tag_from_tab_idx(&mut self, tab: &str, idx: usize, reverse: &mut bool) -> (r: Result<bool, ColumnSortError>)
        ensures
            ({
                let target = if idx == 0 {
                    Some(SingleCgroupModelFieldId::Name)
                } else {
                    match fields_of_tab(tab@) {
                        Some(fs) => if idx - 1 < fs.len() { Some(fs[idx - 1]) } else { None },
                        None => None,
                    }
                };
                match target {
                    Some(f) => {
                        &&& r == Ok::<bool, ColumnSortError>(true)
                        &&& (final(self).sort_order, final(self).reverse) == sort_after(old(self).sort_order, old(self).reverse, f)
                        &&& *final(reverse) == final(self).reverse
                    },
                    None => {
                        &&& r == Err::<bool, ColumnSortError>(if idx != 0 && fields_of_tab(tab@) is None {
                            ColumnSortError::UnknownTab
                        } else {
                            ColumnSortError::OutOfTitleScope
                        })
                        &&& final(self).sort_order == old(self).sort_order
                        &&& final(self).reverse == old(self).reverse
                        &&& *final(reverse) == *old(reverse)
                    },
                }
            }),
            final(self).collapsed_cgroups == old(self).collapsed_cgroups,
            final(self).filter == old(self).filter,
            final(self).model == old(self).model,
            final(self).current_selected_cgroup == old(self).current_selected_cgroup,
            final(self).collapse_all_top_level_cgroup == old(self).collapse_all_top_level_cgroup,
    {
        if idx == 0 {
            return Ok(self.set_sort_tag(SingleCgroupModelFieldId::Name, reverse));
        }
        match tab_by_name(tab) {
            None => Err(ColumnSortError::UnknownTab),
            Some(t) => {
                if idx - 1 < t.view_items.len() {
                    let f = t.view_items[idx - 1].field_id;
                    Ok(self.set_sort_tag(f, reverse))
                } else {
                    Err(ColumnSortError::OutOfTitleScope)
                }
            },
        }
    }

    /// Sorts by the field named `selection`. An unknown name is refused:
    /// the result is `false` and nothing changes.
    pub fn set_sort_string(&mut self, selection: &str, reverse: &mut bool) -> (r: bool)
        ensures
            match crate::model::first_named(crate::model::all_fields_spec(), selection@) {
                Some(f) => {
                    &&& r
                    &&& (final(self).sort_order, final(self).reverse) == sort_after(old(self).sort_order, old(self).reverse, f)
                    &&& *final(reverse) == final(self).reverse
                },
                None => {
                    &&& !r
                    &&& final(self).sort_order == old(self).sort_order
                    &&& final(self).reverse == old(self).reverse
                    &&& *final(reverse) == *old(reverse)
                },
            },
            final(self).collapsed_cgroups == old(self).collapsed_cgroups,
            final(self).filter == old(self).filter,
            final(self).model == old(self).model,
            final(self).current_selected_cgroup == old(self).current_selected_cgroup,
            final(self).collapse_all_top_level_cgroup == old(self).collapse_all_top_level_cgroup,
    {
        match SingleCgroupModelFieldId::from_str(selection) {
            Ok(field_id) => self.set_sort_tag(field_id, reverse),
            Err(_) => false,
        }
    }

    pub fn set_sort_order(&mut self, tag: SingleCgroupModelFieldId)
        ensures
            final(self).sort_order == Some(tag),
            final(self).reverse == old(self).reverse,
            final(self).collapsed_cgroups == old(self).collapsed_cgroups,
            final(self).filter == old(self).filter,
            final(self).model == old(self).model,
            final(self).current_selected_cgroup == old(self).current_selected_cgroup,
            final(self).collapse_all_top_level_cgroup == old(self).collapse_all_top_level_cgroup,
    {
        self.sort_order = Some(tag);
    }

    pub fn set_reverse(&mut self, reverse: bool)
        ensures
            final(self).reverse == reverse,
            final(self).sort_order == old(self).sort_order,
            final(self).collapsed_cgroups == old(self).collapsed_cgroups,
            final(self).filter == old(self).filter,
            final(self).model == old(self).model,
            final(self).current_selected_cgroup == old(self).current_selected_cgroup,
            final(self).collapse_all_top_level_cgroup == old(self).collapse_all_top_level_cgroup,
    {
        self.reverse = reverse;
    }

    /// Sorts by `tag`, largest first, whatever the sort was before.
    pub fn sort_by_shortcut(&mut self, tag: SingleCgroupModelFieldId)
        ensures
            final(self).sort_order == Some(tag),
            final(self).reverse,
            final(self).collapsed_cgroups == old(self).collapsed_cgroups,
            final(self).filter == old(self).filter,
            final(self).model == old(self).model,
            final(self).current_selected_cgroup == old(self).current_selected_cgroup,
            final(self).collapse_all_top_level_cgroup == old(self).collapse_all_top_level_cgroup,
    {
        self.set_sort_order(tag);
        self.set_reverse(true);
    }

    /// Sorts by CPU usage, largest first.
    pub fn sort_by_cpu(&mut self)
        ensures
            final(self).sort_order == Some(SingleCgroupModelFieldId::Cpu(CgroupCpuModelFieldId::UsagePct)),
            final(self).reverse,
            final(self).collapsed_cgroups == old(self).collapsed_cgroups,
            final(self).filter == old(self).filter,
            final(self).model == old(self).model,
            final(self).current_selected_cgroup == old(self).current_selected_cgroup,
            final(self).collapse_all_top_level_cgroup == old(self).collapse_all_top_level_cgroup,
    {
        self.sort_by_shortcut(SingleCgroupModelFieldId::Cpu(CgroupCpuModelFieldId::UsagePct));
    }

    /// Sorts by total memory, largest first.
    pub fn sort_by_memory(&mut self)
        ensures
            final(self).sort_order == Some(SingleCgroupModelFieldId::Mem(CgroupMemoryModelFieldId::Total)),
            final(self).reverse,
            final(self).collapsed_cgroups == old(self).collapsed_cgroups,
            final(self).filter == old(self).filter,
            final(self).model == old(self).model,
            final(self).current_selected_cgroup == old(self).current_selected_cgroup,
            final(self).collapse_all_top_level_cgroup == old(self).collapse_all_top_level_cgroup,
    {
        self.sort_by_shortcut(SingleCgroupModelFieldId::Mem(CgroupMemoryModelFieldId::Total));
    }

    /// Sorts by total disk traffic, largest first.
    pub fn sort_by_disk(&mut self)
        ensures
            final(self).sort_order == Some(SingleCgroupModelFieldId::Io(CgroupIoModelFieldId::RwbytesPerSec)),
            final(self).reverse,
            final(self).collapsed_cgroups == old(self).collapsed_cgroups,
            final(self).filter == old(self).filter,
            final(self).model == old(self).model,
            final(self).current_selected_cgroup == old(self).current_selected_cgroup,
            final(self).collapse_all_top_level_cgroup == old(self).collapse_all_top_level_cgroup,
    {
        self.sort_by_shortcut(SingleCgroupModelFieldId::Io(CgroupIoModelFieldId::RwbytesPerSec));
    }

    pub fn toggle_collapse_root_flag(&mut self)
        ensures
            final(self).collapse_all_top_level_cgroup == !old(self).collapse_all_top_level_cgroup,
            final(self).collapsed_cgroups == old(self).collapsed_cgroups,
            final(self).sort_order == old(self).sort_order,
            final(self).reverse == old(self).reverse,
            final(self).filter == old(self).filter,
            final(self).model == old(self).model,
            final(self).current_selected_cgroup == old(self).current_selected_cgroup,
    {
        self.collapse_all_top_level_cgroup = !self.collapse_all_top_level_cgroup;
    }

    /// Flips the collapse-all-top-level rule and empties the collapse set,
    /// which the blanket rule supersedes.
    pub fn toggle_root(&mut self)
        requires
            old(self).wf(),
        ensures
            final(self).wf(),
            final(self).collapse_all_top_level_cgroup == !old(self).collapse_all_top_level_cgroup,
            final(self).collapsed_cgroups@ == Set::<Seq<char>>::empty(),
            final(self).sort_order == old(self).sort_order,
            final(self).reverse == old(self).reverse,
            final(self).filter == old(self).filter,
            final(self).model == old(self).model,
            final(self).current_selected_cgroup == old(self).current_selected_cgroup,
    {
        self.toggle_collapse_root_flag();
        self.collapsed_cgroups.clear();
    }

    /// Collapses `key` when it is expanded and expands it when collapsed,
    /// first cancelling the collapse-all-top-level rule.
    pub fn toggle_node(&mut self, key: String)
        requires
            old(self).wf(),
        ensures
            final(self).wf(),
            !final(self).collapse_all_top_level_cgroup,
            final(self).collapsed_cgroups@ == toggled(old(self).collapsed_cgroups@, key@),
            final(self).sort_order == old(self).sort_order,
            final(self).reverse == old(self).reverse,
            final(self).filter == old(self).filter,
            final(self).model == old(self).model,
            final(self).current_selected_cgroup == old(self).current_selected_cgroup,
    {
        if self.collapse_all_top_level_cgroup {
            self.toggle_collapse_root_flag();
        }
        if self.collapsed_cgroups.contains(&key) {
            self.collapsed_cgroups.remove(&key);
        } else {
            self.collapsed_cgroups.insert(key);
        }
    }

    /// Acts on the activation of the row with key `key`: the root row (the
    /// empty key) toggles the collapse-all-top-level rule, any other row
    /// toggles its own collapse.
    pub fn submit_row(&mut self, key: String)
        requires
            old(self).wf(),
        ensures
            final(self).wf(),
            key@.len() == 0 ==> final(self).collapse_all_top_level_cgroup == !old(self).collapse_all_top_level_cgroup
                && final(self).collapsed_cgroups@ == Set::<Seq<char>>::empty(),
            key@.len() != 0 ==> !final(self).collapse_all_top_level_cgroup
                && final(self).collapsed_cgroups@ == toggled(old(self).collapsed_cgroups@, key@),
            final(self).sort_order == old(self).sort_order,
            final(self).reverse == old(self).reverse,
            final(self).filter == old(self).filter,
            final(self).model == old(self).model,
            final(self).current_selected_cgroup == old(self).current_selected_cgroup,
    {
        if key.unicode_len() == 0 {
            self.toggle_root();
        } else {
            self.toggle_node(key);
        }
    }

    /// Records the row the cursor is on.
    pub fn select_row(&mut self, key: String)
        ensures
            final(self).current_selected_cgroup == key,
            final(self).collapsed_cgroups == old(self).collapsed_cgroups,
            final(self).sort_order == old(self).sort_order,
            final(self).reverse == old(self).reverse,
            final(self).filter == old(self).filter,
            final(self).model == old(self).model,
            final(self).collapse_all_top_level_cgroup == old(self).collapse_all_top_level_cgroup,
    {
        self.current_selected_cgroup = key;
    }
}

/// One tab of the cgroup view.
pub struct CgroupView {
    pub tab: CgroupTab,
}

impl CgroupView {
    /// The view of the tab named `name`, if there is one.
    pub fn from_tab_name(name: &str) -> (r: Option<CgroupView>)
        ensures
            match fields_of_tab(name@) {
                Some(fs) => r is Some && tab_fields(r->Some_0.tab) == fs && default_titles(name@ == "General"@, r->Some_0.tab),
                None => r is None,
            },
    {
        match tab_by_name(name) {
            Some(tab) => Some(CgroupView { tab }),
            None => None,
        }
    }

    /// The identifier under which the view receives its events.
    pub fn get_view_name() -> (r: &'static str)
        ensures
            r@ == "cgroup_view"@,
    {
        "cgroup_view"
    }

    pub fn get_titles(&self) -> (r: ColumnTitles)
        ensures
            r.pinned_titles == 1,
            r.titles@.len() == self.tab.view_items@.len() + 1,
            r.titles@[0]@ == "Name"@,
            forall|i: int| 0 <= i < self.tab.view_items@.len() ==>
                #[trigger] r.titles@[i + 1]@ == self.tab.view_items@[i].spec_title(),
    {
        self.tab.get_titles()
    }

    pub fn get_rows(&self, state: &CgroupState, offset: Option<usize>) -> (r: Vec<(String, String)>)
        requires
            state.wf(),
        ensures
            rows_view(r@) == node_rows(
                state.model,
                0,
                self.tab.view_items@,
                offset_of(offset),
                state.excluded(),
                state.collapsed_cgroups@,
                state.collapse_all_top_level_cgroup,
                state.sort_order,
                state.reverse,
            ),
    {
        self.tab.get_rows(state, offset)
    }
}

} // verus!
