//! The tree snapshot that the view engine reads, and the registry of the
//! fields that can be shown and sorted on.
use vstd::prelude::*;

use crate::text::{contains_seq, decimal, push_decimal, str_eq};

verus! {

/// The CPU metrics of a cgroup.
#[derive(Clone, Copy, Debug, PartialEq, Eq, Structural)]
pub enum CgroupCpuModelFieldId {
    UsagePct,
    UserPct,
    SystemPct,
    NrPeriodsPerSec,
    NrThrottledPerSec,
    ThrottledPct,
}

impl CgroupCpuModelFieldId {
    pub open spec fn spec_name(self) -> Seq<char> {
        match self {
            CgroupCpuModelFieldId::UsagePct => "cpu.usage_pct"@,
            CgroupCpuModelFieldId::UserPct => "cpu.user_pct"@,
            CgroupCpuModelFieldId::SystemPct => "cpu.system_pct"@,
            CgroupCpuModelFieldId::NrPeriodsPerSec => "cpu.nr_periods_per_sec"@,
            CgroupCpuModelFieldId::NrThrottledPerSec => "cpu.nr_throttled_per_sec"@,
            CgroupCpuModelFieldId::ThrottledPct => "cpu.throttled_pct"@,
        }
    }

    pub open spec fn spec_title(self) -> Seq<char> {
        match self {
            CgroupCpuModelFieldId::UsagePct => "CPU Usage %"@,
            CgroupCpuModelFieldId::UserPct => "CPU User %"@,
            CgroupCpuModelFieldId::SystemPct => "CPU System %"@,
            CgroupCpuModelFieldId::NrPeriodsPerSec => "CPU Nr Periods /s"@,
            CgroupCpuModelFieldId::NrThrottledPerSec => "CPU Nr Throttled /s"@,
            CgroupCpuModelFieldId::ThrottledPct => "CPU Throttled %"@,
        }
    }

    pub fn name(self) -> (r: &'static str)
        ensures
            r@ == self.spec_name(),
    {
        match self {
            CgroupCpuModelFieldId::UsagePct => "cpu.usage_pct",
            CgroupCpuModelFieldId::UserPct => "cpu.user_pct",
            CgroupCpuModelFieldId::SystemPct => "cpu.system_pct",
            CgroupCpuModelFieldId::NrPeriodsPerSec => "cpu.nr_periods_per_sec",
            CgroupCpuModelFieldId::NrThrottledPerSec => "cpu.nr_throttled_per_sec",
            CgroupCpuModelFieldId::ThrottledPct => "cpu.throttled_pct",
        }
    }

    pub fn title(self) -> (r: &'static str)
        ensures
            r@ == self.spec_title(),
    {
        match self {
            CgroupCpuModelFieldId::UsagePct => "CPU Usage %",
            CgroupCpuModelFieldId::UserPct => "CPU User %",
            CgroupCpuModelFieldId::SystemPct => "CPU System %",
            CgroupCpuModelFieldId::NrPeriodsPerSec => "CPU Nr Periods /s",
            CgroupCpuModelFieldId::NrThrottledPerSec => "CPU Nr Throttled /s",
            CgroupCpuModelFieldId::ThrottledPct => "CPU Throttled %",
        }
    }
}

/// The Mem metrics of a cgroup.
#[derive(Clone, Copy, Debug, PartialEq, Eq, Structural)]
pub enum CgroupMemoryModelFieldId {
    Total,
    Swap,
    Anon,
    File,
    KernelStack,
    Slab,
    Sock,
    Shmem,
    FileMapped,
    FileDirty,
    FileWriteback,
    AnonThp,
    InactiveAnon,
    ActiveAnon,
    InactiveFile,
    ActiveFile,
    Unevictable,
    SlabReclaimable,
    SlabUnreclaimable,
    Pgfault,
    Pgmajfault,
    WorkingsetRefault,
    WorkingsetActivate,
    WorkingsetNodereclaim,
    Pgrefill,
    Pgscan,
    Pgsteal,
    Pgactivate,
    Pgdeactivate,
    Pglazyfree,
    Pglazyfreed,
    ThpFaultAlloc,
    ThpCollapseAlloc,
    EventsLow,
    EventsHigh,
    EventsMax,
    EventsOom,
    EventsOomKill,
}

impl CgroupMemoryModelFieldId {
    pub open spec fn spec_name(self) -> Seq<char> {
        match self {
            CgroupMemoryModelFieldId::Total => "mem.total"@,
            CgroupMemoryModelFieldId::Swap => "mem.swap"@,
            CgroupMemoryModelFieldId::Anon => "mem.anon"@,
            CgroupMemoryModelFieldId::File => "mem.file"@,
            CgroupMemoryModelFieldId::KernelStack => "mem.kernel_stack"@,
            CgroupMemoryModelFieldId::Slab => "mem.slab"@,
            CgroupMemoryModelFieldId::Sock => "mem.sock"@,
            CgroupMemoryModelFieldId::Shmem => "mem.shmem"@,
            CgroupMemoryModelFieldId::FileMapped => "mem.file_mapped"@,
            CgroupMemoryModelFieldId::FileDirty => "mem.file_dirty"@,
            CgroupMemoryModelFieldId::FileWriteback => "mem.file_writeback"@,
            CgroupMemoryModelFieldId::AnonThp => "mem.anon_thp"@,
            CgroupMemoryModelFieldId::InactiveAnon => "mem.inactive_anon"@,
            CgroupMemoryModelFieldId::ActiveAnon => "mem.active_anon"@,
            CgroupMemoryModelFieldId::InactiveFile => "mem.inactive_file"@,
            CgroupMemoryModelFieldId::ActiveFile => "mem.active_file"@,
            CgroupMemoryModelFieldId::Unevictable => "mem.unevictable"@,
            CgroupMemoryModelFieldId::SlabReclaimable => "mem.slab_reclaimable"@,
            CgroupMemoryModelFieldId::SlabUnreclaimable => "mem.slab_unreclaimable"@,
            CgroupMemoryModelFieldId::Pgfault => "mem.pgfault"@,
            CgroupMemoryModelFieldId::Pgmajfault => "mem.pgmajfault"@,
            CgroupMemoryModelFieldId::WorkingsetRefault => "mem.workingset_refault"@,
            CgroupMemoryModelFieldId::WorkingsetActivate => "mem.workingset_activate"@,
            CgroupMemoryModelFieldId::WorkingsetNodereclaim => "mem.workingset_nodereclaim"@,
            CgroupMemoryModelFieldId::Pgrefill => "mem.pgrefill"@,
            CgroupMemoryModelFieldId::Pgscan => "mem.pgscan"@,
            CgroupMemoryModelFieldId::Pgsteal => "mem.pgsteal"@,
            CgroupMemoryModelFieldId::Pgactivate => "mem.pgactivate"@,
            CgroupMemoryModelFieldId::Pgdeactivate => "mem.pgdeactivate"@,
            CgroupMemoryModelFieldId::Pglazyfree => "mem.pglazyfree"@,
            CgroupMemoryModelFieldId::Pglazyfreed => "mem.pglazyfreed"@,
            CgroupMemoryModelFieldId::ThpFaultAlloc => "mem.thp_fault_alloc"@,
            CgroupMemoryModelFieldId::ThpCollapseAlloc => "mem.thp_collapse_alloc"@,
            CgroupMemoryModelFieldId::EventsLow => "mem.events_low"@,
            CgroupMemoryModelFieldId::EventsHigh => "mem.events_high"@,
            CgroupMemoryModelFieldId::EventsMax => "mem.events_max"@,
            CgroupMemoryModelFieldId::EventsOom => "mem.events_oom"@,
            CgroupMemoryModelFieldId::EventsOomKill => "mem.events_oom_kill"@,
        }
    }

    pub open spec fn spec_title(self) -> Seq<char> {
        match self {
            CgroupMemoryModelFieldId::Total => "Mem Total"@,
            CgroupMemoryModelFieldId::Swap => "Mem Swap"@,
            CgroupMemoryModelFieldId::Anon => "Mem Anon"@,
            CgroupMemoryModelFieldId::File => "Mem File"@,
            CgroupMemoryModelFieldId::KernelStack => "Mem Kernel Stack"@,
            CgroupMemoryModelFieldId::Slab => "Mem Slab"@,
            CgroupMemoryModelFieldId::Sock => "Mem Sock"@,
            CgroupMemoryModelFieldId::Shmem => "Mem Shmem"@,
            CgroupMemoryModelFieldId::FileMapped => "Mem File Mapped"@,
            CgroupMemoryModelFieldId::FileDirty => "Mem File Dirty"@,
            CgroupMemoryModelFieldId::FileWriteback => "Mem File Writeback"@,
            CgroupMemoryModelFieldId::AnonThp => "Mem Anon Thp"@,
            CgroupMemoryModelFieldId::InactiveAnon => "Mem Inactive Anon"@,
            CgroupMemoryModelFieldId::ActiveAnon => "Mem Active Anon"@,
            CgroupMemoryModelFieldId::InactiveFile => "Mem Inactive File"@,
            CgroupMemoryModelFieldId::ActiveFile => "Mem Active File"@,
            CgroupMemoryModelFieldId::Unevictable => "Mem Unevictable"@,
            CgroupMemoryModelFieldId::SlabReclaimable => "Mem Slab Reclaimable"@,
            CgroupMemoryModelFieldId::SlabUnreclaimable => "Mem Slab Unreclaimable"@,
            CgroupMemoryModelFieldId::Pgfault => "Mem Pgfault"@,
            CgroupMemoryModelFieldId::Pgmajfault => "Mem Pgmajfault"@,
            CgroupMemoryModelFieldId::WorkingsetRefault => "Mem Workingset Refault"@,
            CgroupMemoryModelFieldId::WorkingsetActivate => "Mem Workingset Activate"@,
            CgroupMemoryModelFieldId::WorkingsetNodereclaim => "Mem Workingset Nodereclaim"@,
            CgroupMemoryModelFieldId::Pgrefill => "Mem Pgrefill"@,
            CgroupMemoryModelFieldId::Pgscan => "Mem Pgscan"@,
            CgroupMemoryModelFieldId::Pgsteal => "Mem Pgsteal"@,
            CgroupMemoryModelFieldId::Pgactivate => "Mem Pgactivate"@,
            CgroupMemoryModelFieldId::Pgdeactivate => "Mem Pgdeactivate"@,
            CgroupMemoryModelFieldId::Pglazyfree => "Mem Pglazyfree"@,
            CgroupMemoryModelFieldId::Pglazyfreed => "Mem Pglazyfreed"@,
            CgroupMemoryModelFieldId::ThpFaultAlloc => "Mem Thp Fault Alloc"@,
            CgroupMemoryModelFieldId::ThpCollapseAlloc => "Mem Thp Collapse Alloc"@,
            CgroupMemoryModelFieldId::EventsLow => "Mem Events Low"@,
            CgroupMemoryModelFieldId::EventsHigh => "Mem Events High"@,
            CgroupMemoryModelFieldId::EventsMax => "Mem Events Max"@,
            CgroupMemoryModelFieldId::EventsOom => "Mem Events Oom"@,
            CgroupMemoryModelFieldId::EventsOomKill => "Mem Events Oom Kill"@,
        }
    }

    pub fn name(self) -> (r: &'static str)
        ensures
            r@ == self.spec_name(),
    {
        match self {
            CgroupMemoryModelFieldId::Total => "mem.total",
            CgroupMemoryModelFieldId::Swap => "mem.swap",
            CgroupMemoryModelFieldId::Anon => "mem.anon",
            CgroupMemoryModelFieldId::File => "mem.file",
            CgroupMemoryModelFieldId::KernelStack => "mem.kernel_stack",
            CgroupMemoryModelFieldId::Slab => "mem.slab",
            CgroupMemoryModelFieldId::Sock => "mem.sock",
            CgroupMemoryModelFieldId::Shmem => "mem.shmem",
            CgroupMemoryModelFieldId::FileMapped => "mem.file_mapped",
            CgroupMemoryModelFieldId::FileDirty => "mem.file_dirty",
            CgroupMemoryModelFieldId::FileWriteback => "mem.file_writeback",
            CgroupMemoryModelFieldId::AnonThp => "mem.anon_thp",
            CgroupMemoryModelFieldId::InactiveAnon => "mem.inactive_anon",
            CgroupMemoryModelFieldId::ActiveAnon => "mem.active_anon",
            CgroupMemoryModelFieldId::InactiveFile => "mem.inactive_file",
            CgroupMemoryModelFieldId::ActiveFile => "mem.active_file",
            CgroupMemoryModelFieldId::Unevictable => "mem.unevictable",
            CgroupMemoryModelFieldId::SlabReclaimable => "mem.slab_reclaimable",
            CgroupMemoryModelFieldId::SlabUnreclaimable => "mem.slab_unreclaimable",
            CgroupMemoryModelFieldId::Pgfault => "mem.pgfault",
            CgroupMemoryModelFieldId::Pgmajfault => "mem.pgmajfault",
            CgroupMemoryModelFieldId::WorkingsetRefault => "mem.workingset_refault",
            CgroupMemoryModelFieldId::WorkingsetActivate => "mem.workingset_activate",
            CgroupMemoryModelFieldId::WorkingsetNodereclaim => "mem.workingset_nodereclaim",
            CgroupMemoryModelFieldId::Pgrefill => "mem.pgrefill",
            CgroupMemoryModelFieldId::Pgscan => "mem.pgscan",
            CgroupMemoryModelFieldId::Pgsteal => "mem.pgsteal",
            CgroupMemoryModelFieldId::Pgactivate => "mem.pgactivate",
            CgroupMemoryModelFieldId::Pgdeactivate => "mem.pgdeactivate",
            CgroupMemoryModelFieldId::Pglazyfree => "mem.pglazyfree",
            CgroupMemoryModelFieldId::Pglazyfreed => "mem.pglazyfreed",
            CgroupMemoryModelFieldId::ThpFaultAlloc => "mem.thp_fault_alloc",
            CgroupMemoryModelFieldId::ThpCollapseAlloc => "mem.thp_collapse_alloc",
            CgroupMemoryModelFieldId::EventsLow => "mem.events_low",
            CgroupMemoryModelFieldId::EventsHigh => "mem.events_high",
            CgroupMemoryModelFieldId::EventsMax => "mem.events_max",
            CgroupMemoryModelFieldId::EventsOom => "mem.events_oom",
            CgroupMemoryModelFieldId::EventsOomKill => "mem.events_oom_kill",
        }
    }

    pub fn title(self) -> (r: &'static str)
        ensures
            r@ == self.spec_title(),
    {
        match self {
            CgroupMemoryModelFieldId::Total => "Mem Total",
            CgroupMemoryModelFieldId::Swap => "Mem Swap",
            CgroupMemoryModelFieldId::Anon => "Mem Anon",
            CgroupMemoryModelFieldId::File => "Mem File",
            CgroupMemoryModelFieldId::KernelStack => "Mem Kernel Stack",
            CgroupMemoryModelFieldId::Slab => "Mem Slab",
            CgroupMemoryModelFieldId::Sock => "Mem Sock",
            CgroupMemoryModelFieldId::Shmem => "Mem Shmem",
            CgroupMemoryModelFieldId::FileMapped => "Mem File Mapped",
            CgroupMemoryModelFieldId::FileDirty => "Mem File Dirty",
            CgroupMemoryModelFieldId::FileWriteback => "Mem File Writeback",
            CgroupMemoryModelFieldId::AnonThp => "Mem Anon Thp",
            CgroupMemoryModelFieldId::InactiveAnon => "Mem Inactive Anon",
            CgroupMemoryModelFieldId::ActiveAnon => "Mem Active Anon",
            CgroupMemoryModelFieldId::InactiveFile => "Mem Inactive File",
            CgroupMemoryModelFieldId::ActiveFile => "Mem Active File",
            CgroupMemoryModelFieldId::Unevictable => "Mem Unevictable",
            CgroupMemoryModelFieldId::SlabReclaimable => "Mem Slab Reclaimable",
            CgroupMemoryModelFieldId::SlabUnreclaimable => "Mem Slab Unreclaimable",
            CgroupMemoryModelFieldId::Pgfault => "Mem Pgfault",
            CgroupMemoryModelFieldId::Pgmajfault => "Mem Pgmajfault",
            CgroupMemoryModelFieldId::WorkingsetRefault => "Mem Workingset Refault",
            CgroupMemoryModelFieldId::WorkingsetActivate => "Mem Workingset Activate",
            CgroupMemoryModelFieldId::WorkingsetNodereclaim => "Mem Workingset Nodereclaim",
            CgroupMemoryModelFieldId::Pgrefill => "Mem Pgrefill",
            CgroupMemoryModelFieldId::Pgscan => "Mem Pgscan",
            CgroupMemoryModelFieldId::Pgsteal => "Mem Pgsteal",
            CgroupMemoryModelFieldId::Pgactivate => "Mem Pgactivate",
            CgroupMemoryModelFieldId::Pgdeactivate => "Mem Pgdeactivate",
            CgroupMemoryModelFieldId::Pglazyfree => "Mem Pglazyfree",
            CgroupMemoryModelFieldId::Pglazyfreed => "Mem Pglazyfreed",
            CgroupMemoryModelFieldId::ThpFaultAlloc => "Mem Thp Fault Alloc",
            CgroupMemoryModelFieldId::ThpCollapseAlloc => "Mem Thp Collapse Alloc",
            CgroupMemoryModelFieldId::EventsLow => "Mem Events Low",
            CgroupMemoryModelFieldId::EventsHigh => "Mem Events High",
            CgroupMemoryModelFieldId::EventsMax => "Mem Events Max",
            CgroupMemoryModelFieldId::EventsOom => "Mem Events Oom",
            CgroupMemoryModelFieldId::EventsOomKill => "Mem Events Oom Kill",
        }
    }
}

/// The I/O metrics of a cgroup.
#[derive(Clone, Copy, Debug, PartialEq, Eq, Structural)]
pub enum CgroupIoModelFieldId {
    RbytesPerSec,
    WbytesPerSec,
    DbytesPerSec,
    RiosPerSec,
    WiosPerSec,
    DiosPerSec,
    RwbytesPerSec,
}

impl CgroupIoModelFieldId {
    pub open spec fn spec_name(self) -> Seq<char> {
        match self {
            CgroupIoModelFieldId::RbytesPerSec => "io.rbytes_per_sec"@,
            CgroupIoModelFieldId::WbytesPerSec => "io.wbytes_per_sec"@,
            CgroupIoModelFieldId::DbytesPerSec => "io.dbytes_per_sec"@,
            CgroupIoModelFieldId::RiosPerSec => "io.rios_per_sec"@,
            CgroupIoModelFieldId::WiosPerSec => "io.wios_per_sec"@,
            CgroupIoModelFieldId::DiosPerSec => "io.dios_per_sec"@,
            CgroupIoModelFieldId::RwbytesPerSec => "io.rwbytes_per_sec"@,
        }
    }

    pub open spec fn spec_title(self) -> Seq<char> {
        match self {
            CgroupIoModelFieldId::RbytesPerSec => "I/O Rbytes /s"@,
            CgroupIoModelFieldId::WbytesPerSec => "I/O Wbytes /s"@,
            CgroupIoModelFieldId::DbytesPerSec => "I/O Dbytes /s"@,
            CgroupIoModelFieldId::RiosPerSec => "I/O Rios /s"@,
            CgroupIoModelFieldId::WiosPerSec => "I/O Wios /s"@,
            CgroupIoModelFieldId::DiosPerSec => "I/O Dios /s"@,
            CgroupIoModelFieldId::RwbytesPerSec => "I/O Rwbytes /s"@,
        }
    }

    pub fn name(self) -> (r: &'static str)
        ensures
            r@ == self.spec_name(),
    {
        match self {
            CgroupIoModelFieldId::RbytesPerSec => "io.rbytes_per_sec",
            CgroupIoModelFieldId::WbytesPerSec => "io.wbytes_per_sec",
            CgroupIoModelFieldId::DbytesPerSec => "io.dbytes_per_sec",
            CgroupIoModelFieldId::RiosPerSec => "io.rios_per_sec",
            CgroupIoModelFieldId::WiosPerSec => "io.wios_per_sec",
            CgroupIoModelFieldId::DiosPerSec => "io.dios_per_sec",
            CgroupIoModelFieldId::RwbytesPerSec => "io.rwbytes_per_sec",
        }
    }

    pub fn title(self) -> (r: &'static str)
        ensures
            r@ == self.spec_title(),
    {
        match self {
            CgroupIoModelFieldId::RbytesPerSec => "I/O Rbytes /s",
            CgroupIoModelFieldId::WbytesPerSec => "I/O Wbytes /s",
            CgroupIoModelFieldId::DbytesPerSec => "I/O Dbytes /s",
            CgroupIoModelFieldId::RiosPerSec => "I/O Rios /s",
            CgroupIoModelFieldId::WiosPerSec => "I/O Wios /s",
            CgroupIoModelFieldId::DiosPerSec => "I/O Dios /s",
            CgroupIoModelFieldId::RwbytesPerSec => "I/O Rwbytes /s",
        }
    }
}

/// The Pressure metrics of a cgroup.
#[derive(Clone, Copy, Debug, PartialEq, Eq, Structural)]
pub enum CgroupPressureModelFieldId {
    CpuSomePct,
    CpuFullPct,
    MemorySomePct,
    MemoryFullPct,
    IoSomePct,
    IoFullPct,
}

impl CgroupPressureModelFieldId {
    pub open spec fn spec_name(self) -> Seq<char> {
        match self {
            CgroupPressureModelFieldId::CpuSomePct => "pressure.cpu_some_pct"@,
            CgroupPressureModelFieldId::CpuFullPct => "pressure.cpu_full_pct"@,
            CgroupPressureModelFieldId::MemorySomePct => "pressure.memory_some_pct"@,
            CgroupPressureModelFieldId::MemoryFullPct => "pressure.memory_full_pct"@,
            CgroupPressureModelFieldId::IoSomePct => "pressure.io_some_pct"@,
            CgroupPressureModelFieldId::IoFullPct => "pressure.io_full_pct"@,
        }
    }

    pub open spec fn spec_title(self) -> Seq<char> {
        match self {
            CgroupPressureModelFieldId::CpuSomePct => "Pressure Cpu Some %"@,
            CgroupPressureModelFieldId::CpuFullPct => "Pressure Cpu Full %"@,
            CgroupPressureModelFieldId::MemorySomePct => "Pressure Memory Some %"@,
            CgroupPressureModelFieldId::MemoryFullPct => "Pressure Memory Full %"@,
            CgroupPressureModelFieldId::IoSomePct => "Pressure Io Some %"@,
            CgroupPressureModelFieldId::IoFullPct => "Pressure Io Full %"@,
        }
    }

    pub fn name(self) -> (r: &'static str)
        ensures
            r@ == self.spec_name(),
    {
        match self {
            CgroupPressureModelFieldId::CpuSomePct => "pressure.cpu_some_pct",
            CgroupPressureModelFieldId::CpuFullPct => "pressure.cpu_full_pct",
            CgroupPressureModelFieldId::MemorySomePct => "pressure.memory_some_pct",
            CgroupPressureModelFieldId::MemoryFullPct => "pressure.memory_full_pct",
            CgroupPressureModelFieldId::IoSomePct => "pressure.io_some_pct",
            CgroupPressureModelFieldId::IoFullPct => "pressure.io_full_pct",
        }
    }

    pub fn title(self) -> (r: &'static str)
        ensures
            r@ == self.spec_title(),
    {
        match self {
            CgroupPressureModelFieldId::CpuSomePct => "Pressure Cpu Some %",
            CgroupPressureModelFieldId::CpuFullPct => "Pressure Cpu Full %",
            CgroupPressureModelFieldId::MemorySomePct => "Pressure Memory Some %",
            CgroupPressureModelFieldId::MemoryFullPct => "Pressure Memory Full %",
            CgroupPressureModelFieldId::IoSomePct => "Pressure Io Some %",
            CgroupPressureModelFieldId::IoFullPct => "Pressure Io Full %",
        }
    }
}

/// The Perf metrics of a cgroup.
#[derive(Clone, Copy, Debug, PartialEq, Eq, Structural)]
pub enum CgroupPerfEventModelFieldId {
    Events,
}

impl CgroupPerfEventModelFieldId {
    pub open spec fn spec_name(self) -> Seq<char> {
        match self {
            CgroupPerfEventModelFieldId::Events => "perf.events"@,
        }
    }

    pub open spec fn spec_title(self) -> Seq<char> {
        match self {
            CgroupPerfEventModelFieldId::Events => "Perf Events"@,
        }
    }

    pub fn name(self) -> (r: &'static str)
        ensures
            r@ == self.spec_name(),
    {
        match self {
            CgroupPerfEventModelFieldId::Events => "perf.events",
        }
    }

    pub fn title(self) -> (r: &'static str)
        ensures
            r@ == self.spec_title(),
    {
        match self {
            CgroupPerfEventModelFieldId::Events => "Perf Events",
        }
    }
}

/// Every field identifier, in registry order.
pub open spec fn all_fields_spec() -> Seq<SingleCgroupModelFieldId> {
    seq![
        SingleCgroupModelFieldId::Name,
        SingleCgroupModelFieldId::FullPath,
        SingleCgroupModelFieldId::Cpu(CgroupCpuModelFieldId::UsagePct),
        SingleCgroupModelFieldId::Cpu(CgroupCpuModelFieldId::UserPct),
        SingleCgroupModelFieldId::Cpu(CgroupCpuModelFieldId::SystemPct),
        SingleCgroupModelFieldId::Cpu(CgroupCpuModelFieldId::NrPeriodsPerSec),
        SingleCgroupModelFieldId::Cpu(CgroupCpuModelFieldId::NrThrottledPerSec),
        SingleCgroupModelFieldId::Cpu(CgroupCpuModelFieldId::ThrottledPct),
        SingleCgroupModelFieldId::Mem(CgroupMemoryModelFieldId::Total),
        SingleCgroupModelFieldId::Mem(CgroupMemoryModelFieldId::Swap),
        SingleCgroupModelFieldId::Mem(CgroupMemoryModelFieldId::Anon),
        SingleCgroupModelFieldId::Mem(CgroupMemoryModelFieldId::File),
        SingleCgroupModelFieldId::Mem(CgroupMemoryModelFieldId::KernelStack),
        SingleCgroupModelFieldId::Mem(CgroupMemoryModelFieldId::Slab),
        SingleCgroupModelFieldId::Mem(CgroupMemoryModelFieldId::Sock),
        SingleCgroupModelFieldId::Mem(CgroupMemoryModelFieldId::Shmem),
        SingleCgroupModelFieldId::Mem(CgroupMemoryModelFieldId::FileMapped),
        SingleCgroupModelFieldId::Mem(CgroupMemoryModelFieldId::FileDirty),
        SingleCgroupModelFieldId::Mem(CgroupMemoryModelFieldId::FileWriteback),
        SingleCgroupModelFieldId::Mem(CgroupMemoryModelFieldId::AnonThp),
        SingleCgroupModelFieldId::Mem(CgroupMemoryModelFieldId::InactiveAnon),
        SingleCgroupModelFieldId::Mem(CgroupMemoryModelFieldId::ActiveAnon),
        SingleCgroupModelFieldId::Mem(CgroupMemoryModelFieldId::InactiveFile),
        SingleCgroupModelFieldId::Mem(CgroupMemoryModelFieldId::ActiveFile),
        SingleCgroupModelFieldId::Mem(CgroupMemoryModelFieldId::Unevictable),
        SingleCgroupModelFieldId::Mem(CgroupMemoryModelFieldId::SlabReclaimable),
        SingleCgroupModelFieldId::Mem(CgroupMemoryModelFieldId::SlabUnreclaimable),
        SingleCgroupModelFieldId::Mem(CgroupMemoryModelFieldId::Pgfault),
        SingleCgroupModelFieldId::Mem(CgroupMemoryModelFieldId::Pgmajfault),
        SingleCgroupModelFieldId::Mem(CgroupMemoryModelFieldId::WorkingsetRefault),
        SingleCgroupModelFieldId::Mem(CgroupMemoryModelFieldId::WorkingsetActivate),
        SingleCgroupModelFieldId::Mem(CgroupMemoryModelFieldId::WorkingsetNodereclaim),
        SingleCgroupModelFieldId::Mem(CgroupMemoryModelFieldId::Pgrefill),
        SingleCgroupModelFieldId::Mem(CgroupMemoryModelFieldId::Pgscan),
        SingleCgroupModelFieldId::Mem(CgroupMemoryModelFieldId::Pgsteal),
        SingleCgroupModelFieldId::Mem(CgroupMemoryModelFieldId::Pgactivate),
        SingleCgroupModelFieldId::Mem(CgroupMemoryModelFieldId::Pgdeactivate),
        SingleCgroupModelFieldId::Mem(CgroupMemoryModelFieldId::Pglazyfree),
        SingleCgroupModelFieldId::Mem(CgroupMemoryModelFieldId::Pglazyfreed),
        SingleCgroupModelFieldId::Mem(CgroupMemoryModelFieldId::ThpFaultAlloc),
        SingleCgroupModelFieldId::Mem(CgroupMemoryModelFieldId::ThpCollapseAlloc),
        SingleCgroupModelFieldId::Mem(CgroupMemoryModelFieldId::EventsLow),
        SingleCgroupModelFieldId::Mem(CgroupMemoryModelFieldId::EventsHigh),
        SingleCgroupModelFieldId::Mem(CgroupMemoryModelFieldId::EventsMax),
        SingleCgroupModelFieldId::Mem(CgroupMemoryModelFieldId::EventsOom),
        SingleCgroupModelFieldId::Mem(CgroupMemoryModelFieldId::EventsOomKill),
        SingleCgroupModelFieldId::Io(CgroupIoModelFieldId::RbytesPerSec),
        SingleCgroupModelFieldId::Io(CgroupIoModelFieldId::WbytesPerSec),
        SingleCgroupModelFieldId::Io(CgroupIoModelFieldId::DbytesPerSec),
        SingleCgroupModelFieldId::Io(CgroupIoModelFieldId::RiosPerSec),
        SingleCgroupModelFieldId::Io(CgroupIoModelFieldId::WiosPerSec),
        SingleCgroupModelFieldId::Io(CgroupIoModelFieldId::DiosPerSec),
        SingleCgroupModelFieldId::Io(CgroupIoModelFieldId::RwbytesPerSec),
        SingleCgroupModelFieldId::Pressure(CgroupPressureModelFieldId::CpuSomePct),
        SingleCgroupModelFieldId::Pressure(CgroupPressureModelFieldId::CpuFullPct),
        SingleCgroupModelFieldId::Pressure(CgroupPressureModelFieldId::MemorySomePct),
        SingleCgroupModelFieldId::Pressure(CgroupPressureModelFieldId::MemoryFullPct),
        SingleCgroupModelFieldId::Pressure(CgroupPressureModelFieldId::IoSomePct),
        SingleCgroupModelFieldId::Pressure(CgroupPressureModelFieldId::IoFullPct),
        SingleCgroupModelFieldId::Perf(CgroupPerfEventModelFieldId::Events),
    ]
}

/// Every field identifier, in registry order.
pub fn all_fields() -> (r: Vec<SingleCgroupModelFieldId>)
    ensures
        r@ == all_fields_spec(),
{
    vec![
        SingleCgroupModelFieldId::Name,
        SingleCgroupModelFieldId::FullPath,
        SingleCgroupModelFieldId::Cpu(CgroupCpuModelFieldId::UsagePct),
        SingleCgroupModelFieldId::Cpu(CgroupCpuModelFieldId::UserPct),
        SingleCgroupModelFieldId::Cpu(CgroupCpuModelFieldId::SystemPct),
        SingleCgroupModelFieldId::Cpu(CgroupCpuModelFieldId::NrPeriodsPerSec),
        SingleCgroupModelFieldId::Cpu(CgroupCpuModelFieldId::NrThrottledPerSec),
        SingleCgroupModelFieldId::Cpu(CgroupCpuModelFieldId::ThrottledPct),
        SingleCgroupModelFieldId::Mem(CgroupMemoryModelFieldId::Total),
        SingleCgroupModelFieldId::Mem(CgroupMemoryModelFieldId::Swap),
        SingleCgroupModelFieldId::Mem(CgroupMemoryModelFieldId::Anon),
        SingleCgroupModelFieldId::Mem(CgroupMemoryModelFieldId::File),
        SingleCgroupModelFieldId::Mem(CgroupMemoryModelFieldId::KernelStack),
        SingleCgroupModelFieldId::Mem(CgroupMemoryModelFieldId::Slab),
        SingleCgroupModelFieldId::Mem(CgroupMemoryModelFieldId::Sock),
        SingleCgroupModelFieldId::Mem(CgroupMemoryModelFieldId::Shmem),
        SingleCgroupModelFieldId::Mem(CgroupMemoryModelFieldId::FileMapped),
        SingleCgroupModelFieldId::Mem(CgroupMemoryModelFieldId::FileDirty),
        SingleCgroupModelFieldId::Mem(CgroupMemoryModelFieldId::FileWriteback),
        SingleCgroupModelFieldId::Mem(CgroupMemoryModelFieldId::AnonThp),
        SingleCgroupModelFieldId::Mem(CgroupMemoryModelFieldId::InactiveAnon),
        SingleCgroupModelFieldId::Mem(CgroupMemoryModelFieldId::ActiveAnon),
        SingleCgroupModelFieldId::Mem(CgroupMemoryModelFieldId::InactiveFile),
        SingleCgroupModelFieldId::Mem(CgroupMemoryModelFieldId::ActiveFile),
        SingleCgroupModelFieldId::Mem(CgroupMemoryModelFieldId::Unevictable),
        SingleCgroupModelFieldId::Mem(CgroupMemoryModelFieldId::SlabReclaimable),
        SingleCgroupModelFieldId::Mem(CgroupMemoryModelFieldId::SlabUnreclaimable),
        SingleCgroupModelFieldId::Mem(CgroupMemoryModelFieldId::Pgfault),
        SingleCgroupModelFieldId::Mem(CgroupMemoryModelFieldId::Pgmajfault),
        SingleCgroupModelFieldId::Mem(CgroupMemoryModelFieldId::WorkingsetRefault),
        SingleCgroupModelFieldId::Mem(CgroupMemoryModelFieldId::WorkingsetActivate),
        SingleCgroupModelFieldId::Mem(CgroupMemoryModelFieldId::WorkingsetNodereclaim),
        SingleCgroupModelFieldId::Mem(CgroupMemoryModelFieldId::Pgrefill),
        SingleCgroupModelFieldId::Mem(CgroupMemoryModelFieldId::Pgscan),
        SingleCgroupModelFieldId::Mem(CgroupMemoryModelFieldId::Pgsteal),
        SingleCgroupModelFieldId::Mem(CgroupMemoryModelFieldId::Pgactivate),
        SingleCgroupModelFieldId::Mem(CgroupMemoryModelFieldId::Pgdeactivate),
        SingleCgroupModelFieldId::Mem(CgroupMemoryModelFieldId::Pglazyfree),
        SingleCgroupModelFieldId::Mem(CgroupMemoryModelFieldId::Pglazyfreed),
        SingleCgroupModelFieldId::Mem(CgroupMemoryModelFieldId::ThpFaultAlloc),
        SingleCgroupModelFieldId::Mem(CgroupMemoryModelFieldId::ThpCollapseAlloc),
        SingleCgroupModelFieldId::Mem(CgroupMemoryModelFieldId::EventsLow),
        SingleCgroupModelFieldId::Mem(CgroupMemoryModelFieldId::EventsHigh),
        SingleCgroupModelFieldId::Mem(CgroupMemoryModelFieldId::EventsMax),
        SingleCgroupModelFieldId::Mem(CgroupMemoryModelFieldId::EventsOom),
        SingleCgroupModelFieldId::Mem(CgroupMemoryModelFieldId::EventsOomKill),
        SingleCgroupModelFieldId::Io(CgroupIoModelFieldId::RbytesPerSec),
        SingleCgroupModelFieldId::Io(CgroupIoModelFieldId::WbytesPerSec),
        SingleCgroupModelFieldId::Io(CgroupIoModelFieldId::DbytesPerSec),
        SingleCgroupModelFieldId::Io(CgroupIoModelFieldId::RiosPerSec),
        SingleCgroupModelFieldId::Io(CgroupIoModelFieldId::WiosPerSec),
        SingleCgroupModelFieldId::Io(CgroupIoModelFieldId::DiosPerSec),
        SingleCgroupModelFieldId::Io(CgroupIoModelFieldId::RwbytesPerSec),
        SingleCgroupModelFieldId::Pressure(CgroupPressureModelFieldId::CpuSomePct),
        SingleCgroupModelFieldId::Pressure(CgroupPressureModelFieldId::CpuFullPct),
        SingleCgroupModelFieldId::Pressure(CgroupPressureModelFieldId::MemorySomePct),
        SingleCgroupModelFieldId::Pressure(CgroupPressureModelFieldId::MemoryFullPct),
        SingleCgroupModelFieldId::Pressure(CgroupPressureModelFieldId::IoSomePct),
        SingleCgroupModelFieldId::Pressure(CgroupPressureModelFieldId::IoFullPct),
        SingleCgroupModelFieldId::Perf(CgroupPerfEventModelFieldId::Events),
    ]
}

/// Identifies one displayable and sortable field of a cgroup, as a
/// (category, leaf) path.
#[derive(Clone, Copy, Debug, PartialEq, Eq, Structural)]
pub enum SingleCgroupModelFieldId {
    Name,
    FullPath,
    Cpu(CgroupCpuModelFieldId),
    Mem(CgroupMemoryModelFieldId),
    Io(CgroupIoModelFieldId),
    Pressure(CgroupPressureModelFieldId),
    Perf(CgroupPerfEventModelFieldId),
}

impl SingleCgroupModelFieldId {
    /// The name under which the field is selected by text.
    pub open spec fn spec_name(self) -> Seq<char> {
        match self {
            SingleCgroupModelFieldId::Name => "name"@,
            SingleCgroupModelFieldId::FullPath => "full_path"@,
            SingleCgroupModelFieldId::Cpu(f) => f.spec_name(),
            SingleCgroupModelFieldId::Mem(f) => f.spec_name(),
            SingleCgroupModelFieldId::Io(f) => f.spec_name(),
            SingleCgroupModelFieldId::Pressure(f) => f.spec_name(),
            SingleCgroupModelFieldId::Perf(f) => f.spec_name(),
        }
    }

    /// The default column title.
    pub open spec fn spec_title(self) -> Seq<char> {
        match self {
            SingleCgroupModelFieldId::Name => "Name"@,
            SingleCgroupModelFieldId::FullPath => "Full Path"@,
            SingleCgroupModelFieldId::Cpu(f) => f.spec_title(),
            SingleCgroupModelFieldId::Mem(f) => f.spec_title(),
            SingleCgroupModelFieldId::Io(f) => f.spec_title(),
            SingleCgroupModelFieldId::Pressure(f) => f.spec_title(),
            SingleCgroupModelFieldId::Perf(f) => f.spec_title(),
        }
    }

    pub fn name(self) -> (r: &'static str)
        ensures
            r@ == self.spec_name(),
    {
        match self {
            SingleCgroupModelFieldId::Name => "name",
            SingleCgroupModelFieldId::FullPath => "full_path",
            SingleCgroupModelFieldId::Cpu(f) => f.name(),
            SingleCgroupModelFieldId::Mem(f) => f.name(),
            SingleCgroupModelFieldId::Io(f) => f.name(),
            SingleCgroupModelFieldId::Pressure(f) => f.name(),
            SingleCgroupModelFieldId::Perf(f) => f.name(),
        }
    }

    pub fn title(self) -> (r: &'static str)
        ensures
            r@ == self.spec_title(),
    {
        match self {
            SingleCgroupModelFieldId::Name => "Name",
            SingleCgroupModelFieldId::FullPath => "Full Path",
            SingleCgroupModelFieldId::Cpu(f) => f.title(),
            SingleCgroupModelFieldId::Mem(f) => f.title(),
            SingleCgroupModelFieldId::Io(f) => f.title(),
            SingleCgroupModelFieldId::Pressure(f) => f.title(),
            SingleCgroupModelFieldId::Perf(f) => f.title(),
        }
    }

    /// Resolves a field by its name: the first field of the registry whose
    /// name is `s`, or `Err` when none is.
    pub fn from_str(s: &str) -> (r: Result<SingleCgroupModelFieldId, UnknownField>)
        ensures
            match first_named(all_fields_spec(), s@) {
                Some(f) => r == Ok::<SingleCgroupModelFieldId, UnknownField>(f),
                None => r is Err,
            },
    {
        let fields = all_fields();
        assert(fields@.subrange(0, fields@.len() as int) =~= fields@);
        let mut i: usize = 0;
        while i < fields.len()
            invariant
                fields@ == all_fields_spec(),
                i <= fields@.len(),
                first_named(all_fields_spec(), s@) == first_named(fields@.subrange(i as int, fields@.len() as int), s@),
            decreases fields@.len() - i,
        {
            let f = fields[i];
            proof {
                let rest = fields@.subrange(i as int, fields@.len() as int);
                assert(rest[0] == f);
                assert(rest.drop_first() =~= fields@.subrange(i + 1, fields@.len() as int));
            }
            if str_eq(f.name(), s) {
                return Ok(f);
            }
            i = i + 1;
        }
        Err(UnknownField)
    }
}

/// The first field of `fs` whose name is `s`.
pub open spec fn first_named(fs: Seq<SingleCgroupModelFieldId>, s: Seq<char>) -> Option<SingleCgroupModelFieldId>
    decreases fs.len(),
{
    if fs.len() == 0 {
        None
    } else if fs[0].spec_name() == s {
        Some(fs[0])
    } else {
        first_named(fs.drop_first(), s)
    }
}

/// A field name that the registry does not know.
#[derive(Clone, Copy, Debug, PartialEq, Eq, Structural)]
pub struct UnknownField;

/// One metric value of a cgroup, identified by its field.
#[derive(Clone, Copy, Debug)]
pub struct Metric {
    pub field: SingleCgroupModelFieldId,
    pub value: u64,
}

/// The value of field `f` among `ms`: the first entry for `f`, or `None`
/// when the snapshot lacks it.
pub open spec fn metric_value(ms: Seq<Metric>, f: SingleCgroupModelFieldId) -> Option<u64>
    decreases ms.len(),
{
    if ms.len() == 0 {
        None
    } else if ms[0].field == f {
        Some(ms[0].value)
    } else {
        metric_value(ms.drop_first(), f)
    }
}

/// The metric snapshot of one cgroup. Gauges that are fractional at the
/// source (percentages, rates) are carried as fixed-point integers chosen
/// by the collector.
#[derive(Clone, Debug)]
pub struct SingleCgroupModel {
    pub name: String,
    pub full_path: String,
    pub depth: u32,
    pub metrics: Vec<Metric>,
}

/// What a field compares by. An absent metric is the least value of all.
pub enum SortKey {
    Absent,
    Num(u64),
    Text(Seq<char>),
}

/// Lexicographic order on character sequences, by code point.
pub open spec fn text_le(a: Seq<char>, b: Seq<char>) -> bool
    decreases a.len(),
{
    if a.len() == 0 {
        true
    } else if b.len() == 0 {
        false
    } else if (a[0] as u32) < (b[0] as u32) {
        true
    } else if (a[0] as u32) > (b[0] as u32) {
        false
    } else {
        text_le(a.drop_first(), b.drop_first())
    }
}

/// The total preorder on sort keys: absent values first, then numbers,
/// then text.
pub open spec fn key_le(a: SortKey, b: SortKey) -> bool {
    match (a, b) {
        (SortKey::Absent, _) => true,
        (_, SortKey::Absent) => false,
        (SortKey::Num(x), SortKey::Num(y)) => x <= y,
        (SortKey::Num(_), SortKey::Text(_)) => true,
        (SortKey::Text(_), SortKey::Num(_)) => false,
        (SortKey::Text(x), SortKey::Text(y)) => text_le(x, y),
    }
}

proof fn lemma_text_le_total(a: Seq<char>, b: Seq<char>)
    ensures
        text_le(a, b) || text_le(b, a),
    decreases a.len(),
{
    if a.len() > 0 && b.len() > 0 && a[0] as u32 == b[0] as u32 {
        lemma_text_le_total(a.drop_first(), b.drop_first());
    }
}

proof fn lemma_text_le_trans(a: Seq<char>, b: Seq<char>, c: Seq<char>)
    requires
        text_le(a, b),
        text_le(b, c),
    ensures
        text_le(a, c),
    decreases a.len(),
{
    if a.len() > 0 && b.len() > 0 && c.len() > 0 && a[0] as u32 == b[0] as u32 && b[0] as u32 == c[0] as u32 {
        lemma_text_le_trans(a.drop_first(), b.drop_first(), c.drop_first());
    }
}

/// Sort keys are totally preordered: any two compare one way or the
/// other, the order is transitive, and an absent value is the least of all.
pub proof fn key_le_total_preorder(a: SortKey, b: SortKey, c: SortKey)
    ensures
        key_le(a, b) || key_le(b, a),
        key_le(a, b) && key_le(b, c) ==> key_le(a, c),
        key_le(SortKey::Absent, a),
{
    if let (SortKey::Text(x), SortKey::Text(y)) = (a, b) {
        lemma_text_le_total(x, y);
    }
    if key_le(a, b) && key_le(b, c) {
        if let (SortKey::Text(x), SortKey::Text(y), SortKey::Text(z)) = (a, b, c) {
            lemma_text_le_trans(x, y, z);
        }
    }
}

impl SingleCgroupModel {
    /// The value that field `f` compares by.
    pub open spec fn sort_key(self, f: SingleCgroupModelFieldId) -> SortKey {
        match f {
            SingleCgroupModelFieldId::Name => SortKey::Text(self.name@),
            SingleCgroupModelFieldId::FullPath => SortKey::Text(self.full_path@),
            _ => match metric_value(self.metrics@, f) {
                Some(v) => SortKey::Num(v),
                None => SortKey::Absent,
            },
        }
    }

    /// The text shown for field `f`; an absent metric shows as `?`.
    pub open spec fn rendered(self, f: SingleCgroupModelFieldId) -> Seq<char> {
        match f {
            SingleCgroupModelFieldId::Name => self.name@,
            SingleCgroupModelFieldId::FullPath => self.full_path@,
            _ => match metric_value(self.metrics@, f) {
                Some(v) => decimal(v as nat),
                None => seq!['?'],
            },
        }
    }

    /// The value of field `f` in this snapshot.
    pub fn metric(&self, f: SingleCgroupModelFieldId) -> (r: Option<u64>)
        ensures
            r == metric_value(self.metrics@, f),
    {
        assert(self.metrics@.subrange(0, self.metrics@.len() as int) =~= self.metrics@);
        let mut i: usize = 0;
        while i < self.metrics.len()
            invariant
                i <= self.metrics@.len(),
                metric_value(self.metrics@, f) == metric_value(
                    self.metrics@.subrange(i as int, self.metrics@.len() as int),
                    f,
                ),
            decreases self.metrics@.len() - i,
        {
            proof {
                let rest = self.metrics@.subrange(i as int, self.metrics@.len() as int);
                assert(rest[0] == self.metrics@[i as int]);
                assert(rest.drop_first() =~= self.metrics@.subrange(i + 1, self.metrics@.len() as int));
            }
            if self.metrics[i].field == f {
                return Some(self.metrics[i].value);
            }
            i = i + 1;
        }
        None
    }

    /// Appends the text of field `f` to `out`.
    pub fn render_into(&self, f: SingleCgroupModelFieldId, out: &mut String)
        ensures
            final(out)@ == old(out)@ + self.rendered(f),
    {
        match f {
            SingleCgroupModelFieldId::Name => out.append(self.name.as_str()),
            SingleCgroupModelFieldId::FullPath => out.append(self.full_path.as_str()),
            _ => match self.metric(f) {
                Some(v) => push_decimal(out, v),
                None => {
                    proof { reveal_strlit("?"); }
                    out.append("?");
                },
            },
        }
    }

    /// Whether `self` comes no later than `other` when ordered by field `f`.
    pub fn field_le(&self, other: &SingleCgroupModel, f: SingleCgroupModelFieldId) -> (r: bool)
        ensures
            r == key_le(self.sort_key(f), other.sort_key(f)),
    {
        match f {
            SingleCgroupModelFieldId::Name => text_le_exec(self.name.as_str(), other.name.as_str()),
            SingleCgroupModelFieldId::FullPath => text_le_exec(
                self.full_path.as_str(),
                other.full_path.as_str(),
            ),
            _ => match (self.metric(f), other.metric(f)) {
                (None, _) => true,
                (Some(_), None) => false,
                (Some(x), Some(y)) => x <= y,
            },
        }
    }
}

/// Lexicographic comparison of two strings by code point.
pub fn text_le_exec(a: &str, b: &str) -> (r: bool)
    ensures
        r == text_le(a@, b@),
{
    let n = a.unicode_len();
    let m = b.unicode_len();
    assert(a@.subrange(0, n as int) =~= a@);
    assert(b@.subrange(0, m as int) =~= b@);
    let mut i: usize = 0;
    while i < n && i < m
        invariant
            n == a@.len(),
            m == b@.len(),
            i <= n,
            i <= m,
            text_le(a@, b@) == text_le(a@.subrange(i as int, n as int), b@.subrange(i as int, m as int)),
        decreases n - i,
    {
        let x = a.get_char(i);
        let y = b.get_char(i);
        proof {
            let ra = a@.subrange(i as int, n as int);
            let rb = b@.subrange(i as int, m as int);
            assert(ra[0] == x && rb[0] == y);
            assert(ra.drop_first() =~= a@.subrange(i + 1, n as int));
            assert(rb.drop_first() =~= b@.subrange(i + 1, m as int));
        }
        if (x as u32) < (y as u32) {
            return true;
        }
        if (x as u32) > (y as u32) {
            return false;
        }
        i = i + 1;
    }
    i == n
}

/// A node of the cgroup tree snapshot. `count` is the number of nodes of
/// the subtree rooted here, this one included.
#[derive(Debug)]
pub struct CgroupModel {
    pub data: SingleCgroupModel,
    pub count: usize,
    pub recreate_flag: bool,
    pub children: Vec<CgroupModel>,
}

impl CgroupModel {
    /// The node's key: its full path.
    pub open spec fn key(self) -> Seq<char> {
        self.data.full_path@
    }

    /// The number of nodes in the subtrees of children `k..` of `self`.
    pub open spec fn size_from(self, k: int) -> nat
        decreases self, self.children@.len() - k,
    {
        if 0 <= k < self.children@.len() {
            1 + self.children@[k].size_from(0) + self.size_from(k + 1)
        } else {
            0
        }
    }

    /// The number of nodes in the subtree rooted at `self`.
    pub open spec fn size(self) -> nat {
        1 + self.size_from(0)
    }

    /// `n` is a node of the subtree rooted at `self`.
    pub open spec fn has_node(self, n: CgroupModel) -> bool
        decreases self, self.children@.len() + 1,
    {
        n == self || self.in_children(0, n)
    }

    /// `n` is a node of the subtree of one of the children `k..` of `self`.
    pub open spec fn in_children(self, k: int, n: CgroupModel) -> bool
        decreases self, self.children@.len() - k,
    {
        if 0 <= k < self.children@.len() {
            self.children@[k].has_node(n) || self.in_children(k + 1, n)
        } else {
            false
        }
    }

    /// Some key of the subtree rooted at `self` contains `filter`.
    pub open spec fn subtree_matches(self, filter: Seq<char>) -> bool
        decreases self, self.children@.len() + 1,
    {
        contains_seq(self.key(), filter) || self.children_match(0, filter)
    }

    /// Some key in the subtrees of children `k..` of `self` contains `filter`.
    pub open spec fn children_match(self, k: int, filter: Seq<char>) -> bool
        decreases self, self.children@.len() - k,
    {
        if 0 <= k < self.children@.len() {
            self.children@[k].subtree_matches(filter) || self.children_match(k + 1, filter)
        } else {
            false
        }
    }

    /// Every stored `count` in the subtree is the size of its subtree.
    pub open spec fn counts_ok(self) -> bool
        decreases self, self.children@.len() + 1,
    {
        self.count == self.size() && self.children_counts_ok(0)
    }

    /// Every stored `count` in the subtrees of children `k..` is right.
    pub open spec fn children_counts_ok(self, k: int) -> bool
        decreases self, self.children@.len() - k,
    {
        if 0 <= k < self.children@.len() {
            self.children@[k].counts_ok() && self.children_counts_ok(k + 1)
        } else {
            true
        }
    }

    /// No two different nodes share a key.
    pub open spec fn keys_unique(self) -> bool {
        forall|a: CgroupModel, b: CgroupModel|
            self.has_node(a) && self.has_node(b) && a.key() == b.key() ==> a == b
    }

    /// A well-formed snapshot: true counts and unique keys.
    pub open spec fn wf(self) -> bool {
        self.counts_ok() && self.keys_unique()
    }

    /// The keys of the nodes that a filter for `filter` excludes: those
    /// with no key containing `filter` in their subtree.
    pub open spec fn excluded(self, filter: Seq<char>) -> Set<Seq<char>> {
        Set::new(|k: Seq<char>| exists|n: CgroupModel|
            self.has_node(n) && n.key() == k && !n.subtree_matches(filter))
    }
}

/// The perf-event counters of a cgroup, keyed by event name.
#[derive(Clone, Debug, Default)]
pub struct PerfEventModel {
    pub events: std::collections::BTreeMap<String, u64>,
}

impl PerfEventModel {
    /// A model holding a fixed sample of three counters.
    pub fn new() -> (r: PerfEventModel) {
        let mut events = std::collections::BTreeMap::new();
        events.insert("foo".to_string(), 123u64);
        events.insert("bar".to_string(), 456u64);
        events.insert("baz".to_string(), 789u64);
        PerfEventModel { events }
    }

    /// A model holding `events`.
    pub fn new_from(events: std::collections::BTreeMap<String, u64>) -> (r: PerfEventModel)
        ensures
            r.events@ == events@,
    {
        PerfEventModel { events }
    }
}

/// One perf-event counter sample.
#[derive(Clone, Debug, PartialEq, Default)]
pub struct SinglePerfEventModel {
    pub event: String,
    pub value: Option<u64>,
}

impl SinglePerfEventModel {
    /// A sample of `sample` for `event`.
    pub fn new(event: &str, sample: u64) -> (r: SinglePerfEventModel)
        ensures
            r.event@ == event@,
            r.value == Some(sample),
    {
        SinglePerfEventModel { event: event.to_string(), value: Some(sample) }
    }
}

} // verus!
