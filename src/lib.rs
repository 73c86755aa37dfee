//! A hierarchical stats-view engine for cgroup trees: column binding,
//! filtering that keeps ancestor chains, collapse and sort state, and an
//! explicit-stack walker that turns a tree snapshot into display rows.
pub mod cgroup_tabs;
pub mod cgroup_view;
pub mod default_tabs;
pub mod filter;
pub mod key_set;
pub mod model;
pub mod perf_event_menu;
pub mod sort;
pub mod text;
pub mod tree_facts;
pub mod walk_facts;
