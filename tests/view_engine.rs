use below_view::cgroup_tabs::{CgroupTab, CgroupViewItem};
use below_view::cgroup_view::{CgroupState, CgroupView, ColumnSortError};
use below_view::default_tabs::{cgroup_cpu_tab, cgroup_general_tab, tab_by_name, tab_names};
use below_view::filter::calculate_filter_out_set;
use below_view::key_set::KeySet;
use below_view::model::{
    CgroupCpuModelFieldId, CgroupMemoryModelFieldId, CgroupModel, Metric, PerfEventModel,
    SingleCgroupModel, SingleCgroupModelFieldId, SinglePerfEventModel,
};
use below_view::perf_event_menu::{get_args, get_title, pad_right, ControllerHelper, Controllers};
use below_view::text::{contains_str, push_decimal, str_eq};

const CPU: SingleCgroupModelFieldId = SingleCgroupModelFieldId::Cpu(CgroupCpuModelFieldId::UsagePct);

fn node(path: &str, name: &str, depth: u32, cpu: Option<u64>, children: Vec<CgroupModel>) -> CgroupModel {
    let count = 1 + children.iter().map(|c| c.count).sum::<usize>();
    let metrics = match cpu {
        Some(v) => vec![Metric { field: CPU, value: v }],
        None => vec![],
    };
    CgroupModel {
        data: SingleCgroupModel {
            name: name.to_string(),
            full_path: path.to_string(),
            depth,
            metrics,
        },
        count,
        recreate_flag: false,
        children,
    }
}

/// root -> {/a -> {/a/x}, /b}
fn sample_tree() -> CgroupModel {
    node(
        "",
        "<root>",
        0,
        None,
        vec![
            node("/a", "a", 1, Some(10), vec![node("/a/x", "x", 2, Some(5), vec![])]),
            node("/b", "b", 1, Some(90), vec![]),
        ],
    )
}

fn cpu_view() -> CgroupView {
    CgroupView::from_tab_name("CPU").unwrap()
}

fn keys(rows: &[(String, String)]) -> Vec<String> {
    rows.iter().map(|r| r.1.clone()).collect()
}

fn key(s: &str) -> String {
    s.to_string()
}

#[test]
fn filter_x_excludes_only_b() {
    let t = sample_tree();
    let set = calculate_filter_out_set(&t, "x");
    assert_eq!(set.len(), 1);
    assert!(set.contains(&key("/b")));
    assert!(!set.contains(&key("/a")));
    assert!(!set.contains(&key("/a/x")));
    assert!(!set.contains(&key("")));
}

#[test]
fn filter_x_rows_are_root_a_ax() {
    let mut st = CgroupState::new(sample_tree());
    st.set_filter(Some(key("x")));
    let rows = cpu_view().get_rows(&st, None);
    assert_eq!(keys(&rows), vec![key(""), key("/a"), key("/a/x")]);
}

#[test]
fn toggle_root_collapses_top_level() {
    let mut st = CgroupState::new(sample_tree());
    st.toggle_root();
    assert!(st.collapse_all_top_level_cgroup);
    assert_eq!(st.collapsed_cgroups.len(), 0);
    let rows = cpu_view().get_rows(&st, None);
    assert_eq!(keys(&rows), vec![key(""), key("/a"), key("/b")]);
    assert!(rows[1].0.starts_with("  + a "));
    assert!(rows[2].0.starts_with("  + b "));
    assert!(rows[0].0.starts_with("- <root> "));
}

#[test]
fn sort_by_cpu_twice_flips_order() {
    let mut st = CgroupState::new(sample_tree());
    let mut rev = st.reverse;
    assert!(st.set_sort_tag(CPU, &mut rev));
    assert!(st.reverse);
    assert!(rev);
    let rows = cpu_view().get_rows(&st, None);
    assert_eq!(keys(&rows), vec![key(""), key("/b"), key("/a"), key("/a/x")]);
    assert!(st.set_sort_tag(CPU, &mut rev));
    assert!(!st.reverse);
    let rows = cpu_view().get_rows(&st, None);
    assert_eq!(keys(&rows), vec![key(""), key("/a"), key("/a/x"), key("/b")]);
}

#[test]
fn excluded_exactly_when_no_match_below() {
    let t = sample_tree();
    let set = calculate_filter_out_set(&t, "a");
    // "/a" and "/a/x" contain "a"; the root holds them; "/b" does not.
    assert_eq!(set.len(), 1);
    assert!(set.contains(&key("/b")));
    let none = calculate_filter_out_set(&t, "zzz");
    assert_eq!(none.len(), 4);
    let all = calculate_filter_out_set(&t, "");
    assert_eq!(all.len(), 0);
}

#[test]
fn ancestors_of_kept_nodes_are_kept() {
    let t = node(
        "",
        "<root>",
        0,
        None,
        vec![node(
            "/p",
            "p",
            1,
            None,
            vec![node("/p/q", "q", 2, None, vec![node("/p/q/target", "target", 3, None, vec![])]), node("/p/r", "r", 2, None, vec![])],
        )],
    );
    let set = calculate_filter_out_set(&t, "target");
    assert!(!set.contains(&key("")));
    assert!(!set.contains(&key("/p")));
    assert!(!set.contains(&key("/p/q")));
    assert!(!set.contains(&key("/p/q/target")));
    assert!(set.contains(&key("/p/r")));
    assert_eq!(set.len(), 1);
}

#[test]
fn internal_node_matching_itself_is_kept() {
    let t = sample_tree();
    let set = calculate_filter_out_set(&t, "/a");
    assert!(!set.contains(&key("/a")));
    assert!(!set.contains(&key("/a/x")));
    assert!(set.contains(&key("/b")));
    // "/a" is kept by its own key only when its child does not match.
    let t2 = node("", "<root>", 0, None, vec![node("/ab", "ab", 1, None, vec![node("/ab/c", "c", 2, None, vec![])])]);
    let set2 = calculate_filter_out_set(&t2, "ab");
    assert_eq!(set2.len(), 0);
    let set3 = calculate_filter_out_set(&t2, "/ab/");
    assert_eq!(set3.len(), 0);
    let set4 = calculate_filter_out_set(&t2, "b/c");
    assert_eq!(set4.len(), 0);
    let set5 = calculate_filter_out_set(&t2, "q");
    assert_eq!(set5.len(), 3);
}

#[test]
fn same_sort_field_twice_restores_state() {
    let mut st = CgroupState::new(sample_tree());
    let mut rev = false;
    st.set_sort_tag(CPU, &mut rev);
    let before = (st.sort_order, st.reverse);
    st.set_sort_tag(CPU, &mut rev);
    st.set_sort_tag(CPU, &mut rev);
    assert_eq!((st.sort_order, st.reverse), before);
    let mem = SingleCgroupModelFieldId::Mem(CgroupMemoryModelFieldId::Total);
    st.set_sort_tag(mem, &mut rev);
    assert_eq!((st.sort_order, st.reverse), (Some(mem), true));
}

#[test]
fn all_nodes_shown_without_filter_or_collapse() {
    let st = CgroupState::new(sample_tree());
    assert_eq!(cpu_view().get_rows(&st, None).len(), 4);
    let mut st2 = CgroupState::new(sample_tree());
    st2.sort_by_cpu();
    assert_eq!(cpu_view().get_rows(&st2, None).len(), 4);
}

#[test]
fn toggle_node_twice_restores_collapse_set() {
    let mut st = CgroupState::new(sample_tree());
    st.toggle_node(key("/b"));
    assert!(st.collapsed_cgroups.contains(&key("/b")));
    st.toggle_node(key("/a"));
    st.toggle_node(key("/a"));
    assert_eq!(st.collapsed_cgroups.len(), 1);
    assert!(st.collapsed_cgroups.contains(&key("/b")));
    assert!(!st.collapsed_cgroups.contains(&key("/a")));
}

#[test]
fn collapsing_a_node_hides_its_children() {
    let mut st = CgroupState::new(sample_tree());
    st.submit_row(key("/a"));
    let rows = cpu_view().get_rows(&st, None);
    assert_eq!(keys(&rows), vec![key(""), key("/a"), key("/b")]);
    assert!(rows[1].0.starts_with("  + a "));
    st.submit_row(key("/a"));
    assert_eq!(cpu_view().get_rows(&st, None).len(), 4);
}

#[test]
fn collapse_all_ignores_stale_entries_and_node_toggle_clears_it() {
    let mut st = CgroupState::new(sample_tree());
    st.toggle_node(key("/gone"));
    st.toggle_collapse_root_flag();
    let rows = cpu_view().get_rows(&st, None);
    assert_eq!(keys(&rows), vec![key(""), key("/a"), key("/b")]);
    st.toggle_node(key("/b"));
    assert!(!st.collapse_all_top_level_cgroup);
    let rows = cpu_view().get_rows(&st, None);
    assert_eq!(keys(&rows), vec![key(""), key("/a"), key("/a/x"), key("/b")]);
}

#[test]
fn submit_root_row_toggles_rule() {
    let mut st = CgroupState::new(sample_tree());
    st.toggle_node(key("/a"));
    st.submit_row(key(""));
    assert!(st.collapse_all_top_level_cgroup);
    assert_eq!(st.collapsed_cgroups.len(), 0);
    st.submit_row(key(""));
    assert!(!st.collapse_all_top_level_cgroup);
}

#[test]
fn filter_matching_nothing_gives_no_rows() {
    let mut st = CgroupState::new(sample_tree());
    st.set_filter(Some(key("nothing-here")));
    assert_eq!(cpu_view().get_rows(&st, None).len(), 0);
}

#[test]
fn root_only_tree_gives_one_row() {
    let st = CgroupState::new(node("", "<root>", 0, None, vec![]));
    let rows = cpu_view().get_rows(&st, None);
    assert_eq!(keys(&rows), vec![key("")]);
}

#[test]
fn row_text_is_exact() {
    let tab = CgroupTab::new(vec![CgroupViewItem::from_default(CPU)]);
    let st = CgroupState::new(sample_tree());
    let view = CgroupView { tab };
    let rows = view.get_rows(&st, None);
    assert_eq!(rows[0].0, "- <root> ? ");
    assert_eq!(rows[1].0, "  - a 10 ");
    assert_eq!(rows[2].0, "    - x 5 ");
    assert_eq!(rows[3].0, "  - b 90 ");
}

#[test]
fn offset_scrolls_item_columns() {
    let mem = SingleCgroupModelFieldId::Mem(CgroupMemoryModelFieldId::Total);
    let tab = CgroupTab::new(vec![CgroupViewItem::from_default(CPU), CgroupViewItem::from_default(mem)]);
    let d = sample_tree().children.remove(1).data;
    assert_eq!(tab.get_line(&d, false, None), "  - b 90 ? ");
    assert_eq!(tab.get_line(&d, false, Some(1)), "  - b ? ");
    assert_eq!(tab.get_line(&d, true, Some(5)), "  + b ");
}

#[test]
fn recreated_rows_are_tagged() {
    let mut t = sample_tree();
    t.children[1].recreate_flag = true;
    let st = CgroupState::new(t);
    let rows = cpu_view().get_rows(&st, None);
    assert_eq!(rows[3].1, "[RECREATED] /b");
}

#[test]
fn sort_by_name_is_lexicographic() {
    let t = node(
        "",
        "<root>",
        0,
        None,
        vec![node("/c", "c", 1, None, vec![]), node("/a", "a", 1, None, vec![]), node("/b", "b", 1, None, vec![])],
    );
    let mut st = CgroupState::new(t);
    let mut rev = false;
    assert_eq!(st.set_sort_tag_from_tab_idx("CPU", 0, &mut rev), Ok(true));
    assert_eq!(st.sort_order, Some(SingleCgroupModelFieldId::Name));
    assert!(st.reverse);
    let rows = cpu_view().get_rows(&st, None);
    assert_eq!(keys(&rows), vec![key(""), key("/c"), key("/b"), key("/a")]);
    st.set_sort_tag_from_tab_idx("CPU", 0, &mut rev).unwrap();
    let rows = cpu_view().get_rows(&st, None);
    assert_eq!(keys(&rows), vec![key(""), key("/a"), key("/b"), key("/c")]);
}

#[test]
fn missing_metric_sorts_lowest_and_ties_keep_order() {
    let t = node(
        "",
        "<root>",
        0,
        None,
        vec![
            node("/n", "n", 1, None, vec![]),
            node("/p", "p", 1, Some(7), vec![]),
            node("/q", "q", 1, Some(7), vec![]),
            node("/m", "m", 1, Some(1), vec![]),
        ],
    );
    let mut st = CgroupState::new(t);
    st.set_sort_order(CPU);
    st.set_reverse(false);
    let rows = cpu_view().get_rows(&st, None);
    assert_eq!(keys(&rows), vec![key(""), key("/n"), key("/m"), key("/p"), key("/q")]);
    st.set_reverse(true);
    let rows = cpu_view().get_rows(&st, None);
    assert_eq!(keys(&rows), vec![key(""), key("/q"), key("/p"), key("/m"), key("/n")]);
}

#[test]
fn column_index_errors() {
    let mut st = CgroupState::new(sample_tree());
    let mut rev = false;
    assert_eq!(st.set_sort_tag_from_tab_idx("Nope", 1, &mut rev), Err(ColumnSortError::UnknownTab));
    assert_eq!(st.set_sort_tag_from_tab_idx("CPU", 7, &mut rev), Err(ColumnSortError::OutOfTitleScope));
    assert_eq!(st.sort_order, None);
    assert!(!st.reverse);
    assert_eq!(st.set_sort_tag_from_tab_idx("CPU", 6, &mut rev), Ok(true));
    assert_eq!(st.sort_order, Some(SingleCgroupModelFieldId::Cpu(CgroupCpuModelFieldId::ThrottledPct)));
    assert_eq!(st.set_sort_tag_from_tab_idx("General", 2, &mut rev), Ok(true));
    assert_eq!(st.sort_order, Some(SingleCgroupModelFieldId::Mem(CgroupMemoryModelFieldId::Total)));
}

#[test]
fn sort_by_name_string() {
    let mut st = CgroupState::new(sample_tree());
    let mut rev = false;
    assert!(!st.set_sort_string("cpu.no_such_field", &mut rev));
    assert_eq!(st.sort_order, None);
    assert!(st.set_sort_string("cpu.usage_pct", &mut rev));
    assert_eq!(st.sort_order, Some(CPU));
    assert!(rev);
    assert_eq!(SingleCgroupModelFieldId::from_str("mem.events_oom_kill"), Ok(SingleCgroupModelFieldId::Mem(CgroupMemoryModelFieldId::EventsOomKill)));
    assert!(SingleCgroupModelFieldId::from_str("").is_err());
}

#[test]
fn shortcuts_force_descending() {
    let mut st = CgroupState::new(sample_tree());
    st.set_reverse(false);
    st.sort_by_memory();
    assert_eq!(st.sort_order, Some(SingleCgroupModelFieldId::Mem(CgroupMemoryModelFieldId::Total)));
    assert!(st.reverse);
    st.sort_by_disk();
    assert!(st.reverse);
    assert_eq!(st.sort_order.unwrap().name(), "io.rwbytes_per_sec");
}

#[test]
fn titles_of_general_tab() {
    let titles = cgroup_general_tab().get_titles();
    assert_eq!(titles.pinned_titles, 1);
    assert_eq!(titles.titles.len(), 9);
    assert_eq!(titles.titles[0], "Name");
    assert_eq!(titles.titles[1], "CPU");
    assert_eq!(titles.titles[2], "Mem Total");
    let cpu = cgroup_cpu_tab().get_titles();
    assert_eq!(cpu.titles[1], "CPU Usage %");
}

#[test]
fn tabs_by_name() {
    assert_eq!(tab_names(), vec!["General", "CPU", "Mem", "I/O", "Pressure", "Perf"]);
    assert_eq!(tab_by_name("Mem").unwrap().view_items.len(), 38);
    assert_eq!(tab_by_name("I/O").unwrap().view_items.len(), 7);
    assert_eq!(tab_by_name("Perf").unwrap().view_items.len(), 1);
    assert!(tab_by_name("mem").is_none());
    assert_eq!(CgroupView::get_view_name(), "cgroup_view");
}

#[test]
fn new_state_defaults() {
    let st = CgroupState::new(sample_tree());
    assert_eq!(st.current_selected_cgroup, "<root>");
    assert!(st.get_filter().is_none());
    assert_eq!(st.get_model().count, 4);
    let mut st = st;
    st.select_row(key("/a"));
    assert_eq!(st.current_selected_cgroup, "/a");
    st.set_model(node("", "<root>", 0, None, vec![]));
    assert_eq!(st.get_model().count, 1);
}

#[test]
fn help_menu_titles_are_padded() {
    let t = get_title();
    assert_eq!(t, vec![
        format!("{:<18}", "Command"),
        format!("{:<11}", "Short Cmd"),
        format!("{:<24}", "Hot Key"),
        format!("{:<10}", "Args"),
        "Description".to_string(),
    ]);
    assert_eq!(pad_right("abcdef", 3), "abcdef");
}

#[test]
fn text_helpers() {
    assert!(contains_str("/a/x", "x"));
    assert!(contains_str("/a/x", ""));
    assert!(!contains_str("/a", "/a/x"));
    assert!(!contains_str("/A", "/a"));
    assert!(str_eq("abc", "abc"));
    assert!(!str_eq("abc", "abd"));
    let mut s = String::new();
    push_decimal(&mut s, 0);
    assert_eq!(s, "0");
    let mut s = String::from("v=");
    push_decimal(&mut s, u64::MAX);
    assert_eq!(s, format!("v={}", u64::MAX));
    let mut s = String::new();
    push_decimal(&mut s, 1204);
    assert_eq!(s, "1204");
}

#[test]
fn key_set_operations() {
    let mut ks = KeySet::new();
    ks.insert(key("a"));
    ks.insert(key("a"));
    ks.insert(key("b"));
    assert_eq!(ks.len(), 2);
    ks.remove(&key("a"));
    assert!(!ks.contains(&key("a")));
    assert!(ks.contains(&key("b")));
    ks.clear();
    assert_eq!(ks.len(), 0);
}

#[test]
fn perf_event_models() {
    let m = PerfEventModel::new();
    assert_eq!(m.events.len(), 3);
    assert_eq!(m.events.get("bar"), Some(&456));
    let copy = PerfEventModel::new_from(m.events.clone());
    assert_eq!(copy.events, m.events);
    let s = SinglePerfEventModel::new("cycles", 9);
    assert_eq!(s.event, "cycles");
    assert_eq!(s.value, Some(9));
}

#[test]
fn counts_are_checked() {
    assert!(sample_tree().counts_valid());
    let mut bad = sample_tree();
    bad.children[0].count = 1;
    assert!(!bad.counts_valid());
    let mut bad_root = sample_tree();
    bad_root.count = 5;
    assert!(!bad_root.counts_valid());
}

#[test]
fn help_line_matches_title_alignment() {
    let h = ControllerHelper {
        event: "'s'".to_string(),
        description: "sort by column".to_string(),
        cmd: "sort".to_string(),
        cmd_short: "".to_string(),
        args: "SortKey".to_string(),
    };
    assert_eq!(
        h.to_line(),
        format!("{:<18} {:<11} {:<24} {:<10} {}", "sort", "-", "'s'", "SortKey", "sort by column")
    );
    let h2 = ControllerHelper { cmd_short: "s".to_string(), ..h };
    assert!(h2.to_line().starts_with("sort               s           's'"));
}

#[test]
fn sort_flip_follows_state_direction() {
    let mut st = CgroupState::new(sample_tree());
    st.set_sort_order(CPU);
    st.set_reverse(false);
    let mut callers_copy = true;
    assert!(st.set_sort_tag(CPU, &mut callers_copy));
    assert!(st.reverse);
    assert!(callers_copy);
    st.sort_by_cpu();
    let mut callers_copy = false;
    st.set_sort_tag(CPU, &mut callers_copy);
    assert!(!st.reverse);
    assert!(!callers_copy);
}

#[test]
fn sort_keeps_selection() {
    let mut st = CgroupState::new(sample_tree());
    st.select_row(key("/b"));
    let mut rev = false;
    st.set_sort_tag(CPU, &mut rev);
    st.toggle_node(key("/a"));
    st.toggle_root();
    assert_eq!(st.current_selected_cgroup, "/b");
}

#[test]
fn argument_hints() {
    assert_eq!(get_args(&Controllers::SortCol), "SortKey");
    assert_eq!(get_args(&Controllers::Filter), "Name");
    assert_eq!(get_args(&Controllers::JForward), "Time");
    assert_eq!(get_args(&Controllers::JBackward), "Time");
    assert_eq!(get_args(&Controllers::Quit), "-");
}

#[test]
fn default_tab_titles() {
    let general = tab_by_name("General").unwrap();
    assert_eq!(general.view_items[0].title.as_deref(), Some("CPU"));
    assert!(general.view_items[1..].iter().all(|i| i.title.is_none()));
    assert!(tab_by_name("Pressure").unwrap().view_items.iter().all(|i| i.title.is_none()));
}
