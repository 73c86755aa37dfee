//! The tabs of the cgroup view: General, CPU, Mem, I/O, Pressure and Perf.
use vstd::prelude::*;

use crate::cgroup_tabs::{CgroupTab, CgroupViewItem};
use crate::model::{
    CgroupCpuModelFieldId, CgroupIoModelFieldId, CgroupMemoryModelFieldId, CgroupPerfEventModelFieldId,
    CgroupPressureModelFieldId, SingleCgroupModelFieldId as F,
};
use crate::text::str_eq;

verus! {

/// The fields of a tab's item columns, in order.
pub open spec fn tab_fields(tab: CgroupTab) -> Seq<F> {
    tab.view_items@.map_values(|i: CgroupViewItem| i.field_id)
}

/// The titles of `tab` are the defaults, but for the first column of the
/// General tab (`general`), which reads "CPU".
pub open spec fn default_titles(general: bool, tab: CgroupTab) -> bool {
    forall|i: int| 0 <= i < tab.view_items@.len() ==> if general && i == 0 {
        (#[trigger] tab.view_items@[i]).spec_title() == "CPU"@
    } else {
        tab.view_items@[i].title is None
    }
}

/// A tab whose columns show `fields` under their default titles.
pub fn tab_of(fields: &Vec<F>) -> (r: CgroupTab)
    ensures
        tab_fields(r) == fields@,
        forall|i: int| 0 <= i < r.view_items@.len() ==> (#[trigger] r.view_items@[i]).title is None,
{
    let mut items: Vec<CgroupViewItem> = Vec::new();
    let mut i: usize = 0;
    while i < fields.len()
        invariant
            i <= fields@.len(),
            items@.len() == i,
            forall|k: int| 0 <= k < i ==> (#[trigger] items@[k]).field_id == fields@[k],
            forall|k: int| 0 <= k < items@.len() ==> (#[trigger] items@[k]).title is None,
        decreases fields@.len() - i,
    {
        items.push(CgroupViewItem::from_default(fields[i]));
        i = i + 1;
    }
    assert(items@.map_values(|it: CgroupViewItem| it.field_id) =~= fields@);
    CgroupTab::new(items)
}

/// The fields of the General tab, in column order.
pub open spec fn general_fields() -> Seq<F> {
    seq![
        F::Cpu(CgroupCpuModelFieldId::UsagePct),
        F::Mem(CgroupMemoryModelFieldId::Total),
        F::Pressure(CgroupPressureModelFieldId::CpuFullPct),
        F::Pressure(CgroupPressureModelFieldId::MemoryFullPct),
        F::Pressure(CgroupPressureModelFieldId::IoFullPct),
        F::Io(CgroupIoModelFieldId::RbytesPerSec),
        F::Io(CgroupIoModelFieldId::WbytesPerSec),
        F::Io(CgroupIoModelFieldId::RwbytesPerSec),
    ]
}

/// The General tab.
pub fn cgroup_general_tab() -> (r: CgroupTab)
    ensures
        tab_fields(r) == general_fields(),
        default_titles(true, r),
{
    let fields: Vec<F> = vec![
        F::Cpu(CgroupCpuModelFieldId::UsagePct),
        F::Mem(CgroupMemoryModelFieldId::Total),
        F::Pressure(CgroupPressureModelFieldId::CpuFullPct),
        F::Pressure(CgroupPressureModelFieldId::MemoryFullPct),
        F::Pressure(CgroupPressureModelFieldId::IoFullPct),
        F::Io(CgroupIoModelFieldId::RbytesPerSec),
        F::Io(CgroupIoModelFieldId::WbytesPerSec),
        F::Io(CgroupIoModelFieldId::RwbytesPerSec),
    ];
    assert(fields@ =~= general_fields());
    let mut tab = tab_of(&fields);
    let f = tab.view_items[0].field_id;
    let ghost before = tab.view_items@;
    tab.view_items.set(0, CgroupViewItem::from_default(f).with_title("CPU"));
    assert forall|i: int| 1 <= i < tab.view_items@.len() implies (#[trigger] tab.view_items@[i]).title is None by {
        assert(tab.view_items@[i] == before[i]);
    }
    assert(tab_fields(tab) =~= general_fields());
    tab
}

/// The fields of the CPU tab, in column order.
pub open spec fn cpu_fields() -> Seq<F> {
    seq![
        F::Cpu(CgroupCpuModelFieldId::UsagePct),
        F::Cpu(CgroupCpuModelFieldId::UserPct),
        F::Cpu(CgroupCpuModelFieldId::SystemPct),
        F::Cpu(CgroupCpuModelFieldId::NrPeriodsPerSec),
        F::Cpu(CgroupCpuModelFieldId::NrThrottledPerSec),
        F::Cpu(CgroupCpuModelFieldId::ThrottledPct),
    ]
}

/// The CPU tab.
pub fn cgroup_cpu_tab() -> (r: CgroupTab)
    ensures
        tab_fields(r) == cpu_fields(),
        default_titles(false, r),
{
    let fields: Vec<F> = vec![
        F::Cpu(CgroupCpuModelFieldId::UsagePct),
        F::Cpu(CgroupCpuModelFieldId::UserPct),
        F::Cpu(CgroupCpuModelFieldId::SystemPct),
        F::Cpu(CgroupCpuModelFieldId::NrPeriodsPerSec),
        F::Cpu(CgroupCpuModelFieldId::NrThrottledPerSec),
        F::Cpu(CgroupCpuModelFieldId::ThrottledPct),
    ];
    assert(fields@ =~= cpu_fields());
    tab_of(&fields)
}

/// The fields of the Mem tab, in column order.
pub open spec fn mem_fields() -> Seq<F> {
    seq![
        F::Mem(CgroupMemoryModelFieldId::Total),
        F::Mem(CgroupMemoryModelFieldId::Swap),
        F::Mem(CgroupMemoryModelFieldId::Anon),
        F::Mem(CgroupMemoryModelFieldId::File),
        F::Mem(CgroupMemoryModelFieldId::KernelStack),
        F::Mem(CgroupMemoryModelFieldId::Slab),
        F::Mem(CgroupMemoryModelFieldId::Sock),
        F::Mem(CgroupMemoryModelFieldId::Shmem),
        F::Mem(CgroupMemoryModelFieldId::FileMapped),
        F::Mem(CgroupMemoryModelFieldId::FileDirty),
        F::Mem(CgroupMemoryModelFieldId::FileWriteback),
        F::Mem(CgroupMemoryModelFieldId::AnonThp),
        F::Mem(CgroupMemoryModelFieldId::InactiveAnon),
        F::Mem(CgroupMemoryModelFieldId::ActiveAnon),
        F::Mem(CgroupMemoryModelFieldId::InactiveFile),
        F::Mem(CgroupMemoryModelFieldId::ActiveFile),
        F::Mem(CgroupMemoryModelFieldId::Unevictable),
        F::Mem(CgroupMemoryModelFieldId::SlabReclaimable),
        F::Mem(CgroupMemoryModelFieldId::SlabUnreclaimable),
        F::Mem(CgroupMemoryModelFieldId::Pgfault),
        F::Mem(CgroupMemoryModelFieldId::Pgmajfault),
        F::Mem(CgroupMemoryModelFieldId::WorkingsetRefault),
        F::Mem(CgroupMemoryModelFieldId::WorkingsetActivate),
        F::Mem(CgroupMemoryModelFieldId::WorkingsetNodereclaim),
        F::Mem(CgroupMemoryModelFieldId::Pgrefill),
        F::Mem(CgroupMemoryModelFieldId::Pgscan),
        F::Mem(CgroupMemoryModelFieldId::Pgsteal),
        F::Mem(CgroupMemoryModelFieldId::Pgactivate),
        F::Mem(CgroupMemoryModelFieldId::Pgdeactivate),
        F::Mem(CgroupMemoryModelFieldId::Pglazyfree),
        F::Mem(CgroupMemoryModelFieldId::Pglazyfreed),
        F::Mem(CgroupMemoryModelFieldId::ThpFaultAlloc),
        F::Mem(CgroupMemoryModelFieldId::ThpCollapseAlloc),
        F::Mem(CgroupMemoryModelFieldId::EventsLow),
        F::Mem(CgroupMemoryModelFieldId::EventsHigh),
        F::Mem(CgroupMemoryModelFieldId::EventsMax),
        F::Mem(CgroupMemoryModelFieldId::EventsOom),
        F::Mem(CgroupMemoryModelFieldId::EventsOomKill),
    ]
}

/// The Mem tab.
pub fn cgroup_mem_tab() -> (r: CgroupTab)
    ensures
        tab_fields(r) == mem_fields(),
        default_titles(false, r),
{
    let fields: Vec<F> = vec![
        F::Mem(CgroupMemoryModelFieldId::Total),
        F::Mem(CgroupMemoryModelFieldId::Swap),
        F::Mem(CgroupMemoryModelFieldId::Anon),
        F::Mem(CgroupMemoryModelFieldId::File),
        F::Mem(CgroupMemoryModelFieldId::KernelStack),
        F::Mem(CgroupMemoryModelFieldId::Slab),
        F::Mem(CgroupMemoryModelFieldId::Sock),
        F::Mem(CgroupMemoryModelFieldId::Shmem),
        F::Mem(CgroupMemoryModelFieldId::FileMapped),
        F::Mem(CgroupMemoryModelFieldId::FileDirty),
        F::Mem(CgroupMemoryModelFieldId::FileWriteback),
        F::Mem(CgroupMemoryModelFieldId::AnonThp),
        F::Mem(CgroupMemoryModelFieldId::InactiveAnon),
        F::Mem(CgroupMemoryModelFieldId::ActiveAnon),
        F::Mem(CgroupMemoryModelFieldId::InactiveFile),
        F::Mem(CgroupMemoryModelFieldId::ActiveFile),
        F::Mem(CgroupMemoryModelFieldId::Unevictable),
        F::Mem(CgroupMemoryModelFieldId::SlabReclaimable),
        F::Mem(CgroupMemoryModelFieldId::SlabUnreclaimable),
        F::Mem(CgroupMemoryModelFieldId::Pgfault),
        F::Mem(CgroupMemoryModelFieldId::Pgmajfault),
        F::Mem(CgroupMemoryModelFieldId::WorkingsetRefault),
        F::Mem(CgroupMemoryModelFieldId::WorkingsetActivate),
        F::Mem(CgroupMemoryModelFieldId::WorkingsetNodereclaim),
        F::Mem(CgroupMemoryModelFieldId::Pgrefill),
        F::Mem(CgroupMemoryModelFieldId::Pgscan),
        F::Mem(CgroupMemoryModelFieldId::Pgsteal),
        F::Mem(CgroupMemoryModelFieldId::Pgactivate),
        F::Mem(CgroupMemoryModelFieldId::Pgdeactivate),
        F::Mem(CgroupMemoryModelFieldId::Pglazyfree),
        F::Mem(CgroupMemoryModelFieldId::Pglazyfreed),
        F::Mem(CgroupMemoryModelFieldId::ThpFaultAlloc),
        F::Mem(CgroupMemoryModelFieldId::ThpCollapseAlloc),
        F::Mem(CgroupMemoryModelFieldId::EventsLow),
        F::Mem(CgroupMemoryModelFieldId::EventsHigh),
        F::Mem(CgroupMemoryModelFieldId::EventsMax),
        F::Mem(CgroupMemoryModelFieldId::EventsOom),
        F::Mem(CgroupMemoryModelFieldId::EventsOomKill),
    ];
    assert(fields@ =~= mem_fields());
    tab_of(&fields)
}

/// The fields of the I/O tab, in column order.
pub open spec fn io_fields() -> Seq<F> {
    seq![
        F::Io(CgroupIoModelFieldId::RbytesPerSec),
        F::Io(CgroupIoModelFieldId::WbytesPerSec),
        F::Io(CgroupIoModelFieldId::DbytesPerSec),
        F::Io(CgroupIoModelFieldId::RiosPerSec),
        F::Io(CgroupIoModelFieldId::WiosPerSec),
        F::Io(CgroupIoModelFieldId::DiosPerSec),
        F::Io(CgroupIoModelFieldId::RwbytesPerSec),
    ]
}

/// The I/O tab.
pub fn cgroup_io_tab() -> (r: CgroupTab)
    ensures
        tab_fields(r) == io_fields(),
        default_titles(false, r),
{
    let fields: Vec<F> = vec![
        F::Io(CgroupIoModelFieldId::RbytesPerSec),
        F::Io(CgroupIoModelFieldId::WbytesPerSec),
        F::Io(CgroupIoModelFieldId::DbytesPerSec),
        F::Io(CgroupIoModelFieldId::RiosPerSec),
        F::Io(CgroupIoModelFieldId::WiosPerSec),
        F::Io(CgroupIoModelFieldId::DiosPerSec),
        F::Io(CgroupIoModelFieldId::RwbytesPerSec),
    ];
    assert(fields@ =~= io_fields());
    tab_of(&fields)
}

/// The fields of the Pressure tab, in column order.
pub open spec fn pressure_fields() -> Seq<F> {
    seq![
        F::Pressure(CgroupPressureModelFieldId::CpuSomePct),
        F::Pressure(CgroupPressureModelFieldId::CpuFullPct),
        F::Pressure(CgroupPressureModelFieldId::MemorySomePct),
        F::Pressure(CgroupPressureModelFieldId::MemoryFullPct),
        F::Pressure(CgroupPressureModelFieldId::IoSomePct),
        F::Pressure(CgroupPressureModelFieldId::IoFullPct),
    ]
}

/// The Pressure tab.
pub fn cgroup_pressure_tab() -> (r: CgroupTab)
    ensures
        tab_fields(r) == pressure_fields(),
        default_titles(false, r),
{
    let fields: Vec<F> = vec![
        F::Pressure(CgroupPressureModelFieldId::CpuSomePct),
        F::Pressure(CgroupPressureModelFieldId::CpuFullPct),
        F::Pressure(CgroupPressureModelFieldId::MemorySomePct),
        F::Pressure(CgroupPressureModelFieldId::MemoryFullPct),
        F::Pressure(CgroupPressureModelFieldId::IoSomePct),
        F::Pressure(CgroupPressureModelFieldId::IoFullPct),
    ];
    assert(fields@ =~= pressure_fields());
    tab_of(&fields)
}

/// The fields of the Perf tab, in column order.
pub open spec fn perf_fields() -> Seq<F> {
    seq![
        F::Perf(CgroupPerfEventModelFieldId::Events),
    ]
}

/// The Perf tab.
pub fn cgroup_perf_tab() -> (r: CgroupTab)
    ensures
        tab_fields(r) == perf_fields(),
        default_titles(false, r),
{
    let fields: Vec<F> = vec![
        F::Perf(CgroupPerfEventModelFieldId::Events),
    ];
    assert(fields@ =~= perf_fields());
    tab_of(&fields)
}

/// The names of the tabs, in display order.
pub open spec fn tab_names_spec() -> Seq<Seq<char>> {
    seq!["General"@, "CPU"@, "Mem"@, "I/O"@, "Pressure"@, "Perf"@]
}

/// The fields of the tab named `name`, if there is one.
pub open spec fn fields_of_tab(name: Seq<char>) -> Option<Seq<F>> {
    if name == "General"@ {
        Some(general_fields())
    } else if name == "CPU"@ {
        Some(cpu_fields())
    } else if name == "Mem"@ {
        Some(mem_fields())
    } else if name == "I/O"@ {
        Some(io_fields())
    } else if name == "Pressure"@ {
        Some(pressure_fields())
    } else if name == "Perf"@ {
        Some(perf_fields())
    } else {
        None
    }
}

/// The names of the tabs, in display order.
pub fn tab_names() -> (r: Vec<String>)
    ensures
        r@.map_values(|s: String| s@) == tab_names_spec(),
{
    let r = vec![
        String::from_str("General"),
        String::from_str("CPU"),
        String::from_str("Mem"),
        String::from_str("I/O"),
        String::from_str("Pressure"),
        String::from_str("Perf"),
    ];
    assert(r@.map_values(|s: String| s@) =~= tab_names_spec());
    r
}

/// The tab named `name`, if there is one.
pub fn tab_by_name(name: &str) -> (r: Option<CgroupTab>)
    ensures
        match fields_of_tab(name@) {
            Some(fs) => r is Some && tab_fields(r->Some_0) == fs && default_titles(name@ == "General"@, r->Some_0),
            None => r is None,
        },
{
    if str_eq(name, "General") {
        Some(cgroup_general_tab())
    } else if str_eq(name, "CPU") {
        Some(cgroup_cpu_tab())
    } else if str_eq(name, "Mem") {
        Some(cgroup_mem_tab())
    } else if str_eq(name, "I/O") {
        Some(cgroup_io_tab())
    } else if str_eq(name, "Pressure") {
        Some(cgroup_pressure_tab())
    } else if str_eq(name, "Perf") {
        Some(cgroup_perf_tab())
    } else {
        None
    }
}

} // verus!
