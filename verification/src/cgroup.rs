//! The cgroup domain: one row per control group.

use crate::catalog::{
    extend_mapped, lemma_all_listed, lemma_listed_in_concat, lemma_listed_in_image,
    lemma_names_behind, mapped, Catalog, Named,
};
use crate::field::{names_apart, AggField, CommonField, DumpField, DumpOptionField, FieldId};
use crate::help::{long_about, spec_long_about, DETAIL_WIDENS};
use crate::text::lemma_spell;
use vstd::prelude::*;
use vstd::string::StringExecFns;

verus! {

/// Processor time of one control group.
#[derive(Clone, Copy, Debug, PartialEq, Eq, Hash, Structural)]
pub enum CgroupCpuModelFieldId {
    UsagePct,
    UserPct,
    SystemPct,
    NrPeriodsPerSec,
    NrThrottledPerSec,
    ThrottledPct,
}

impl Named for CgroupCpuModelFieldId {
    open spec fn name(&self) -> Seq<char> {
        match self {
            Self::UsagePct => "usage_pct"@,
            Self::UserPct => "user_pct"@,
            Self::SystemPct => "system_pct"@,
            Self::NrPeriodsPerSec => "nr_periods_per_sec"@,
            Self::NrThrottledPerSec => "nr_throttled_per_sec"@,
            Self::ThrottledPct => "throttled_pct"@,
        }
    }

    fn to_string(&self) -> String {
        match self {
            Self::UsagePct => "usage_pct".to_owned(),
            Self::UserPct => "user_pct".to_owned(),
            Self::SystemPct => "system_pct".to_owned(),
            Self::NrPeriodsPerSec => "nr_periods_per_sec".to_owned(),
            Self::NrThrottledPerSec => "nr_throttled_per_sec".to_owned(),
            Self::ThrottledPct => "throttled_pct".to_owned(),
        }
    }
}

impl Catalog for CgroupCpuModelFieldId {
    open spec fn spec_all() -> Seq<Self> {
        seq![
            Self::UsagePct,
            Self::UserPct,
            Self::SystemPct,
            Self::NrPeriodsPerSec,
            Self::NrThrottledPerSec,
            Self::ThrottledPct,
        ]
    }

    fn all() -> Vec<Self> {
        vec![
            Self::UsagePct,
            Self::UserPct,
            Self::SystemPct,
            Self::NrPeriodsPerSec,
            Self::NrThrottledPerSec,
            Self::ThrottledPct,
        ]
    }

    proof fn lemma_listed(self) {
        let all = Self::spec_all();
        match self {
            Self::UsagePct => assert(all[0] == self),
            Self::UserPct => assert(all[1] == self),
            Self::SystemPct => assert(all[2] == self),
            Self::NrPeriodsPerSec => assert(all[3] == self),
            Self::NrThrottledPerSec => assert(all[4] == self),
            Self::ThrottledPct => assert(all[5] == self),
        }
    }

    proof fn lemma_names(self, other: Self) {
        lemma_spell(self.name());
        lemma_spell(other.name());
        reveal_strlit("usage_pct");
        reveal_strlit("user_pct");
        reveal_strlit("system_pct");
        reveal_strlit("nr_periods_per_sec");
        reveal_strlit("nr_throttled_per_sec");
        reveal_strlit("throttled_pct");
    }
}

/// Memory of one control group.
#[derive(Clone, Copy, Debug, PartialEq, Eq, Hash, Structural)]
pub enum CgroupMemoryModelFieldId {
    Total,
    Swap,
    Anon,
    File,
    KernelStack,
    Slab,
    Sock,
    Shmem,
    Zswap,
    Zswapped,
    FileMapped,
    FileDirty,
    FileWriteback,
    AnonThp,
    InactiveAnon,
    ActiveAnon,
    InactiveFile,
    ActiveFile,
    Unevictable,
    SlabReclaimable,
    SlabUnreclaimable,
    Pgfault,
    Pgmajfault,
    WorkingsetRefaultAnon,
    WorkingsetRefaultFile,
    WorkingsetActivateAnon,
    WorkingsetActivateFile,
    WorkingsetRestoreAnon,
    WorkingsetRestoreFile,
    WorkingsetNodereclaim,
    Pgrefill,
    Pgscan,
    Pgsteal,
    Pgactivate,
    Pgdeactivate,
    Pglazyfree,
    Pglazyfreed,
    ThpFaultAlloc,
    ThpCollapseAlloc,
    EventsLow,
    EventsHigh,
    EventsMax,
    EventsOom,
    EventsOomKill,
}

impl Named for CgroupMemoryModelFieldId {
    open spec fn name(&self) -> Seq<char> {
        match self {
            Self::Total => "total"@,
            Self::Swap => "swap"@,
            Self::Anon => "anon"@,
            Self::File => "file"@,
            Self::KernelStack => "kernel_stack"@,
            Self::Slab => "slab"@,
            Self::Sock => "sock"@,
            Self::Shmem => "shmem"@,
            Self::Zswap => "zswap"@,
            Self::Zswapped => "zswapped"@,
            Self::FileMapped => "file_mapped"@,
            Self::FileDirty => "file_dirty"@,
            Self::FileWriteback => "file_writeback"@,
            Self::AnonThp => "anon_thp"@,
            Self::InactiveAnon => "inactive_anon"@,
            Self::ActiveAnon => "active_anon"@,
            Self::InactiveFile => "inactive_file"@,
            Self::ActiveFile => "active_file"@,
            Self::Unevictable => "unevictable"@,
            Self::SlabReclaimable => "slab_reclaimable"@,
            Self::SlabUnreclaimable => "slab_unreclaimable"@,
            Self::Pgfault => "pgfault"@,
            Self::Pgmajfault => "pgmajfault"@,
            Self::WorkingsetRefaultAnon => "workingset_refault_anon"@,
            Self::WorkingsetRefaultFile => "workingset_refault_file"@,
            Self::WorkingsetActivateAnon => "workingset_activate_anon"@,
            Self::WorkingsetActivateFile => "workingset_activate_file"@,
            Self::WorkingsetRestoreAnon => "workingset_restore_anon"@,
            Self::WorkingsetRestoreFile => "workingset_restore_file"@,
            Self::WorkingsetNodereclaim => "workingset_nodereclaim"@,
            Self::Pgrefill => "pgrefill"@,
            Self::Pgscan => "pgscan"@,
            Self::Pgsteal => "pgsteal"@,
            Self::Pgactivate => "pgactivate"@,
            Self::Pgdeactivate => "pgdeactivate"@,
            Self::Pglazyfree => "pglazyfree"@,
            Self::Pglazyfreed => "pglazyfreed"@,
            Self::ThpFaultAlloc => "thp_fault_alloc"@,
            Self::ThpCollapseAlloc => "thp_collapse_alloc"@,
            Self::EventsLow => "events_low"@,
            Self::EventsHigh => "events_high"@,
            Self::EventsMax => "events_max"@,
            Self::EventsOom => "events_oom"@,
            Self::EventsOomKill => "events_oom_kill"@,
        }
    }

    fn to_string(&self) -> String {
        match self {
            Self::Total => "total".to_owned(),
            Self::Swap => "swap".to_owned(),
            Self::Anon => "anon".to_owned(),
            Self::File => "file".to_owned(),
            Self::KernelStack => "kernel_stack".to_owned(),
            Self::Slab => "slab".to_owned(),
            Self::Sock => "sock".to_owned(),
            Self::Shmem => "shmem".to_owned(),
            Self::Zswap => "zswap".to_owned(),
            Self::Zswapped => "zswapped".to_owned(),
            Self::FileMapped => "file_mapped".to_owned(),
            Self::FileDirty => "file_dirty".to_owned(),
            Self::FileWriteback => "file_writeback".to_owned(),
            Self::AnonThp => "anon_thp".to_owned(),
            Self::InactiveAnon => "inactive_anon".to_owned(),
            Self::ActiveAnon => "active_anon".to_owned(),
            Self::InactiveFile => "inactive_file".to_owned(),
            Self::ActiveFile => "active_file".to_owned(),
            Self::Unevictable => "unevictable".to_owned(),
            Self::SlabReclaimable => "slab_reclaimable".to_owned(),
            Self::SlabUnreclaimable => "slab_unreclaimable".to_owned(),
            Self::Pgfault => "pgfault".to_owned(),
            Self::Pgmajfault => "pgmajfault".to_owned(),
            Self::WorkingsetRefaultAnon => "workingset_refault_anon".to_owned(),
            Self::WorkingsetRefaultFile => "workingset_refault_file".to_owned(),
            Self::WorkingsetActivateAnon => "workingset_activate_anon".to_owned(),
            Self::WorkingsetActivateFile => "workingset_activate_file".to_owned(),
            Self::WorkingsetRestoreAnon => "workingset_restore_anon".to_owned(),
            Self::WorkingsetRestoreFile => "workingset_restore_file".to_owned(),
            Self::WorkingsetNodereclaim => "workingset_nodereclaim".to_owned(),
            Self::Pgrefill => "pgrefill".to_owned(),
            Self::Pgscan => "pgscan".to_owned(),
            Self::Pgsteal => "pgsteal".to_owned(),
            Self::Pgactivate => "pgactivate".to_owned(),
            Self::Pgdeactivate => "pgdeactivate".to_owned(),
            Self::Pglazyfree => "pglazyfree".to_owned(),
            Self::Pglazyfreed => "pglazyfreed".to_owned(),
            Self::ThpFaultAlloc => "thp_fault_alloc".to_owned(),
            Self::ThpCollapseAlloc => "thp_collapse_alloc".to_owned(),
            Self::EventsLow => "events_low".to_owned(),
            Self::EventsHigh => "events_high".to_owned(),
            Self::EventsMax => "events_max".to_owned(),
            Self::EventsOom => "events_oom".to_owned(),
            Self::EventsOomKill => "events_oom_kill".to_owned(),
        }
    }
}

impl Catalog for CgroupMemoryModelFieldId {
    open spec fn spec_all() -> Seq<Self> {
        seq![
            Self::Total,
            Self::Swap,
            Self::Anon,
            Self::File,
            Self::KernelStack,
            Self::Slab,
            Self::Sock,
            Self::Shmem,
            Self::Zswap,
            Self::Zswapped,
            Self::FileMapped,
            Self::FileDirty,
            Self::FileWriteback,
            Self::AnonThp,
            Self::InactiveAnon,
            Self::ActiveAnon,
            Self::InactiveFile,
            Self::ActiveFile,
            Self::Unevictable,
            Self::SlabReclaimable,
            Self::SlabUnreclaimable,
            Self::Pgfault,
            Self::Pgmajfault,
            Self::WorkingsetRefaultAnon,
            Self::WorkingsetRefaultFile,
            Self::WorkingsetActivateAnon,
            Self::WorkingsetActivateFile,
            Self::WorkingsetRestoreAnon,
            Self::WorkingsetRestoreFile,
            Self::WorkingsetNodereclaim,
            Self::Pgrefill,
            Self::Pgscan,
            Self::Pgsteal,
            Self::Pgactivate,
            Self::Pgdeactivate,
            Self::Pglazyfree,
            Self::Pglazyfreed,
            Self::ThpFaultAlloc,
            Self::ThpCollapseAlloc,
            Self::EventsLow,
            Self::EventsHigh,
            Self::EventsMax,
            Self::EventsOom,
            Self::EventsOomKill,
        ]
    }

    fn all() -> Vec<Self> {
        vec![
            Self::Total,
            Self::Swap,
            Self::Anon,
            Self::File,
            Self::KernelStack,
            Self::Slab,
            Self::Sock,
            Self::Shmem,
            Self::Zswap,
            Self::Zswapped,
            Self::FileMapped,
            Self::FileDirty,
            Self::FileWriteback,
            Self::AnonThp,
            Self::InactiveAnon,
            Self::ActiveAnon,
            Self::InactiveFile,
            Self::ActiveFile,
            Self::Unevictable,
            Self::SlabReclaimable,
            Self::SlabUnreclaimable,
            Self::Pgfault,
            Self::Pgmajfault,
            Self::WorkingsetRefaultAnon,
            Self::WorkingsetRefaultFile,
            Self::WorkingsetActivateAnon,
            Self::WorkingsetActivateFile,
            Self::WorkingsetRestoreAnon,
            Self::WorkingsetRestoreFile,
            Self::WorkingsetNodereclaim,
            Self::Pgrefill,
            Self::Pgscan,
            Self::Pgsteal,
            Self::Pgactivate,
            Self::Pgdeactivate,
            Self::Pglazyfree,
            Self::Pglazyfreed,
            Self::ThpFaultAlloc,
            Self::ThpCollapseAlloc,
            Self::EventsLow,
            Self::EventsHigh,
            Self::EventsMax,
            Self::EventsOom,
            Self::EventsOomKill,
        ]
    }

    proof fn lemma_listed(self) {
        let all = Self::spec_all();
        match self {
            Self::Total => assert(all[0] == self),
            Self::Swap => assert(all[1] == self),
            Self::Anon => assert(all[2] == self),
            Self::File => assert(all[3] == self),
            Self::KernelStack => assert(all[4] == self),
            Self::Slab => assert(all[5] == self),
            Self::Sock => assert(all[6] == self),
            Self::Shmem => assert(all[7] == self),
            Self::Zswap => assert(all[8] == self),
            Self::Zswapped => assert(all[9] == self),
            Self::FileMapped => assert(all[10] == self),
            Self::FileDirty => assert(all[11] == self),
            Self::FileWriteback => assert(all[12] == self),
            Self::AnonThp => assert(all[13] == self),
            Self::InactiveAnon => assert(all[14] == self),
            Self::ActiveAnon => assert(all[15] == self),
            Self::InactiveFile => assert(all[16] == self),
            Self::ActiveFile => assert(all[17] == self),
            Self::Unevictable => assert(all[18] == self),
            Self::SlabReclaimable => assert(all[19] == self),
            Self::SlabUnreclaimable => assert(all[20] == self),
            Self::Pgfault => assert(all[21] == self),
            Self::Pgmajfault => assert(all[22] == self),
            Self::WorkingsetRefaultAnon => assert(all[23] == self),
            Self::WorkingsetRefaultFile => assert(all[24] == self),
            Self::WorkingsetActivateAnon => assert(all[25] == self),
            Self::WorkingsetActivateFile => assert(all[26] == self),
            Self::WorkingsetRestoreAnon => assert(all[27] == self),
            Self::WorkingsetRestoreFile => assert(all[28] == self),
            Self::WorkingsetNodereclaim => assert(all[29] == self),
            Self::Pgrefill => assert(all[30] == self),
            Self::Pgscan => assert(all[31] == self),
            Self::Pgsteal => assert(all[32] == self),
            Self::Pgactivate => assert(all[33] == self),
            Self::Pgdeactivate => assert(all[34] == self),
            Self::Pglazyfree => assert(all[35] == self),
            Self::Pglazyfreed => assert(all[36] == self),
            Self::ThpFaultAlloc => assert(all[37] == self),
            Self::ThpCollapseAlloc => assert(all[38] == self),
            Self::EventsLow => assert(all[39] == self),
            Self::EventsHigh => assert(all[40] == self),
            Self::EventsMax => assert(all[41] == self),
            Self::EventsOom => assert(all[42] == self),
            Self::EventsOomKill => assert(all[43] == self),
        }
    }

    proof fn lemma_names(self, other: Self) {
        lemma_spell(self.name());
        lemma_spell(other.name());
        reveal_strlit("total");
        reveal_strlit("swap");
        reveal_strlit("anon");
        reveal_strlit("file");
        reveal_strlit("kernel_stack");
        reveal_strlit("slab");
        reveal_strlit("sock");
        reveal_strlit("shmem");
        reveal_strlit("zswap");
        reveal_strlit("zswapped");
        reveal_strlit("file_mapped");
        reveal_strlit("file_dirty");
        reveal_strlit("file_writeback");
        reveal_strlit("anon_thp");
        reveal_strlit("inactive_anon");
        reveal_strlit("active_anon");
        reveal_strlit("inactive_file");
        reveal_strlit("active_file");
        reveal_strlit("unevictable");
        reveal_strlit("slab_reclaimable");
        reveal_strlit("slab_unreclaimable");
        reveal_strlit("pgfault");
        reveal_strlit("pgmajfault");
        reveal_strlit("workingset_refault_anon");
        reveal_strlit("workingset_refault_file");
        reveal_strlit("workingset_activate_anon");
        reveal_strlit("workingset_activate_file");
        reveal_strlit("workingset_restore_anon");
        reveal_strlit("workingset_restore_file");
        reveal_strlit("workingset_nodereclaim");
        reveal_strlit("pgrefill");
        reveal_strlit("pgscan");
        reveal_strlit("pgsteal");
        reveal_strlit("pgactivate");
        reveal_strlit("pgdeactivate");
        reveal_strlit("pglazyfree");
        reveal_strlit("pglazyfreed");
        reveal_strlit("thp_fault_alloc");
        reveal_strlit("thp_collapse_alloc");
        reveal_strlit("events_low");
        reveal_strlit("events_high");
        reveal_strlit("events_max");
        reveal_strlit("events_oom");
        reveal_strlit("events_oom_kill");
    }
}

/// What one control group reads and writes.
#[derive(Clone, Copy, Debug, PartialEq, Eq, Hash, Structural)]
pub enum CgroupIoModelFieldId {
    RbytesPerSec,
    WbytesPerSec,
    RiosPerSec,
    WiosPerSec,
    DbytesPerSec,
    DiosPerSec,
    RwbytesPerSec,
    CostUsagePct,
    CostWaitPct,
    CostIndebtPct,
    CostIndelayPct,
}

impl Named for CgroupIoModelFieldId {
    open spec fn name(&self) -> Seq<char> {
        match self {
            Self::RbytesPerSec => "rbytes_per_sec"@,
            Self::WbytesPerSec => "wbytes_per_sec"@,
            Self::RiosPerSec => "rios_per_sec"@,
            Self::WiosPerSec => "wios_per_sec"@,
            Self::DbytesPerSec => "dbytes_per_sec"@,
            Self::DiosPerSec => "dios_per_sec"@,
            Self::RwbytesPerSec => "rwbytes_per_sec"@,
            Self::CostUsagePct => "cost_usage_pct"@,
            Self::CostWaitPct => "cost_wait_pct"@,
            Self::CostIndebtPct => "cost_indebt_pct"@,
            Self::CostIndelayPct => "cost_indelay_pct"@,
        }
    }

    fn to_string(&self) -> String {
        match self {
            Self::RbytesPerSec => "rbytes_per_sec".to_owned(),
            Self::WbytesPerSec => "wbytes_per_sec".to_owned(),
            Self::RiosPerSec => "rios_per_sec".to_owned(),
            Self::WiosPerSec => "wios_per_sec".to_owned(),
            Self::DbytesPerSec => "dbytes_per_sec".to_owned(),
            Self::DiosPerSec => "dios_per_sec".to_owned(),
            Self::RwbytesPerSec => "rwbytes_per_sec".to_owned(),
            Self::CostUsagePct => "cost_usage_pct".to_owned(),
            Self::CostWaitPct => "cost_wait_pct".to_owned(),
            Self::CostIndebtPct => "cost_indebt_pct".to_owned(),
            Self::CostIndelayPct => "cost_indelay_pct".to_owned(),
        }
    }
}

impl Catalog for CgroupIoModelFieldId {
    open spec fn spec_all() -> Seq<Self> {
        seq![
            Self::RbytesPerSec,
            Self::WbytesPerSec,
            Self::RiosPerSec,
            Self::WiosPerSec,
            Self::DbytesPerSec,
            Self::DiosPerSec,
            Self::RwbytesPerSec,
            Self::CostUsagePct,
            Self::CostWaitPct,
            Self::CostIndebtPct,
            Self::CostIndelayPct,
        ]
    }

    fn all() -> Vec<Self> {
        vec![
            Self::RbytesPerSec,
            Self::WbytesPerSec,
            Self::RiosPerSec,
            Self::WiosPerSec,
            Self::DbytesPerSec,
            Self::DiosPerSec,
            Self::RwbytesPerSec,
            Self::CostUsagePct,
            Self::CostWaitPct,
            Self::CostIndebtPct,
            Self::CostIndelayPct,
        ]
    }

    proof fn lemma_listed(self) {
        let all = Self::spec_all();
        match self {
            Self::RbytesPerSec => assert(all[0] == self),
            Self::WbytesPerSec => assert(all[1] == self),
            Self::RiosPerSec => assert(all[2] == self),
            Self::WiosPerSec => assert(all[3] == self),
            Self::DbytesPerSec => assert(all[4] == self),
            Self::DiosPerSec => assert(all[5] == self),
            Self::RwbytesPerSec => assert(all[6] == self),
            Self::CostUsagePct => assert(all[7] == self),
            Self::CostWaitPct => assert(all[8] == self),
            Self::CostIndebtPct => assert(all[9] == self),
            Self::CostIndelayPct => assert(all[10] == self),
        }
    }

    proof fn lemma_names(self, other: Self) {
        lemma_spell(self.name());
        lemma_spell(other.name());
        reveal_strlit("rbytes_per_sec");
        reveal_strlit("wbytes_per_sec");
        reveal_strlit("rios_per_sec");
        reveal_strlit("wios_per_sec");
        reveal_strlit("dbytes_per_sec");
        reveal_strlit("dios_per_sec");
        reveal_strlit("rwbytes_per_sec");
        reveal_strlit("cost_usage_pct");
        reveal_strlit("cost_wait_pct");
        reveal_strlit("cost_indebt_pct");
        reveal_strlit("cost_indelay_pct");
    }
}

/// How long one control group waited for a resource.
#[derive(Clone, Copy, Debug, PartialEq, Eq, Hash, Structural)]
pub enum CgroupPressureModelFieldId {
    CpuSomePct,
    CpuFullPct,
    IoSomePct,
    IoFullPct,
    MemorySomePct,
    MemoryFullPct,
}

impl Named for CgroupPressureModelFieldId {
    open spec fn name(&self) -> Seq<char> {
        match self {
            Self::CpuSomePct => "cpu_some_pct"@,
            Self::CpuFullPct => "cpu_full_pct"@,
            Self::IoSomePct => "io_some_pct"@,
            Self::IoFullPct => "io_full_pct"@,
            Self::MemorySomePct => "memory_some_pct"@,
            Self::MemoryFullPct => "memory_full_pct"@,
        }
    }

    fn to_string(&self) -> String {
        match self {
            Self::CpuSomePct => "cpu_some_pct".to_owned(),
            Self::CpuFullPct => "cpu_full_pct".to_owned(),
            Self::IoSomePct => "io_some_pct".to_owned(),
            Self::IoFullPct => "io_full_pct".to_owned(),
            Self::MemorySomePct => "memory_some_pct".to_owned(),
            Self::MemoryFullPct => "memory_full_pct".to_owned(),
        }
    }
}

impl Catalog for CgroupPressureModelFieldId {
    open spec fn spec_all() -> Seq<Self> {
        seq![
            Self::CpuSomePct,
            Self::CpuFullPct,
            Self::IoSomePct,
            Self::IoFullPct,
            Self::MemorySomePct,
            Self::MemoryFullPct,
        ]
    }

    fn all() -> Vec<Self> {
        vec![
            Self::CpuSomePct,
            Self::CpuFullPct,
            Self::IoSomePct,
            Self::IoFullPct,
            Self::MemorySomePct,
            Self::MemoryFullPct,
        ]
    }

    proof fn lemma_listed(self) {
        let all = Self::spec_all();
        match self {
            Self::CpuSomePct => assert(all[0] == self),
            Self::CpuFullPct => assert(all[1] == self),
            Self::IoSomePct => assert(all[2] == self),
            Self::IoFullPct => assert(all[3] == self),
            Self::MemorySomePct => assert(all[4] == self),
            Self::MemoryFullPct => assert(all[5] == self),
        }
    }

    proof fn lemma_names(self, other: Self) {
        lemma_spell(self.name());
        lemma_spell(other.name());
        reveal_strlit("cpu_some_pct");
        reveal_strlit("cpu_full_pct");
        reveal_strlit("io_some_pct");
        reveal_strlit("io_full_pct");
        reveal_strlit("memory_some_pct");
        reveal_strlit("memory_full_pct");
    }
}

/// Leaf fields of the cgroup domain.
#[derive(Clone, Copy, Debug, PartialEq, Eq, Hash, Structural)]
pub enum SingleCgroupModelFieldId {
    Name,
    FullPath,
    InodeNumber,
    Cpu(CgroupCpuModelFieldId),
    Mem(CgroupMemoryModelFieldId),
    Io(CgroupIoModelFieldId),
    Pressure(CgroupPressureModelFieldId),
}

impl Named for SingleCgroupModelFieldId {
    open spec fn name(&self) -> Seq<char> {
        match self {
            Self::Name => "name"@,
            Self::FullPath => "full_path"@,
            Self::InodeNumber => "inode_number"@,
            Self::Cpu(field) => "cpu."@ + field.name(),
            Self::Mem(field) => "mem."@ + field.name(),
            Self::Io(field) => "io."@ + field.name(),
            Self::Pressure(field) => "pressure."@ + field.name(),
        }
    }

    fn to_string(&self) -> String {
        match self {
            Self::Name => "name".to_owned(),
            Self::FullPath => "full_path".to_owned(),
            Self::InodeNumber => "inode_number".to_owned(),
            Self::Cpu(field) => "cpu.".to_owned().concat(field.to_string().as_str()),
            Self::Mem(field) => "mem.".to_owned().concat(field.to_string().as_str()),
            Self::Io(field) => "io.".to_owned().concat(field.to_string().as_str()),
            Self::Pressure(field) => "pressure.".to_owned().concat(field.to_string().as_str()),
        }
    }
}

impl Catalog for SingleCgroupModelFieldId {
    open spec fn spec_all() -> Seq<Self> {
        seq![Self::Name, Self::FullPath, Self::InodeNumber]
            + CgroupCpuModelFieldId::spec_all().map_values(
                |field: CgroupCpuModelFieldId| Self::Cpu(field),
            )
            + CgroupMemoryModelFieldId::spec_all().map_values(
                |field: CgroupMemoryModelFieldId| Self::Mem(field),
            )
            + CgroupIoModelFieldId::spec_all().map_values(
                |field: CgroupIoModelFieldId| Self::Io(field),
            )
            + CgroupPressureModelFieldId::spec_all().map_values(
                |field: CgroupPressureModelFieldId| Self::Pressure(field),
            )
    }

    fn all() -> Vec<Self> {
        let mut all = vec![Self::Name, Self::FullPath, Self::InodeNumber];
        extend_mapped(
            &mut all,
            &CgroupCpuModelFieldId::all(),
            |field: CgroupCpuModelFieldId| -> (wrapped: Self)
                ensures
                    wrapped == Self::Cpu(field)
                { Self::Cpu(field) },
            Ghost(|field: CgroupCpuModelFieldId| Self::Cpu(field)),
        );
        extend_mapped(
            &mut all,
            &CgroupMemoryModelFieldId::all(),
            |field: CgroupMemoryModelFieldId| -> (wrapped: Self)
                ensures
                    wrapped == Self::Mem(field)
                { Self::Mem(field) },
            Ghost(|field: CgroupMemoryModelFieldId| Self::Mem(field)),
        );
        extend_mapped(
            &mut all,
            &CgroupIoModelFieldId::all(),
            |field: CgroupIoModelFieldId| -> (wrapped: Self)
                ensures
                    wrapped == Self::Io(field)
                { Self::Io(field) },
            Ghost(|field: CgroupIoModelFieldId| Self::Io(field)),
        );
        extend_mapped(
            &mut all,
            &CgroupPressureModelFieldId::all(),
            |field: CgroupPressureModelFieldId| -> (wrapped: Self)
                ensures
                    wrapped == Self::Pressure(field)
                { Self::Pressure(field) },
            Ghost(|field: CgroupPressureModelFieldId| Self::Pressure(field)),
        );
        assert(all@ =~= Self::spec_all());
        all
    }

    proof fn lemma_listed(self) {
        let units = seq![Self::Name, Self::FullPath, Self::InodeNumber];
        let wrap_cpu = |field: CgroupCpuModelFieldId| Self::Cpu(field);
        let cpu = CgroupCpuModelFieldId::spec_all().map_values(wrap_cpu);
        let wrap_mem = |field: CgroupMemoryModelFieldId| Self::Mem(field);
        let mem = CgroupMemoryModelFieldId::spec_all().map_values(wrap_mem);
        let wrap_io = |field: CgroupIoModelFieldId| Self::Io(field);
        let io = CgroupIoModelFieldId::spec_all().map_values(wrap_io);
        let wrap_pressure = |field: CgroupPressureModelFieldId| Self::Pressure(field);
        let pressure = CgroupPressureModelFieldId::spec_all().map_values(wrap_pressure);
        lemma_listed_in_concat(units, cpu);
        lemma_listed_in_concat(units + cpu, mem);
        lemma_listed_in_concat(units + cpu + mem, io);
        lemma_listed_in_concat(units + cpu + mem + io, pressure);
        assert(Self::spec_all() =~= units + cpu + mem + io + pressure);
        match self {
            Self::Name => assert(units[0] == self),
            Self::FullPath => assert(units[1] == self),
            Self::InodeNumber => assert(units[2] == self),
            Self::Cpu(field) => {
                field.lemma_listed();
                lemma_listed_in_image(CgroupCpuModelFieldId::spec_all(), wrap_cpu);
                assert(wrap_cpu(field) == self);
            },
            Self::Mem(field) => {
                field.lemma_listed();
                lemma_listed_in_image(CgroupMemoryModelFieldId::spec_all(), wrap_mem);
                assert(wrap_mem(field) == self);
            },
            Self::Io(field) => {
                field.lemma_listed();
                lemma_listed_in_image(CgroupIoModelFieldId::spec_all(), wrap_io);
                assert(wrap_io(field) == self);
            },
            Self::Pressure(field) => {
                field.lemma_listed();
                lemma_listed_in_image(CgroupPressureModelFieldId::spec_all(), wrap_pressure);
                assert(wrap_pressure(field) == self);
            },
        }
    }

    proof fn lemma_names(self, other: Self) {
        lemma_spell(self.name());
        lemma_spell(other.name());
        reveal_strlit("name");
        reveal_strlit("full_path");
        reveal_strlit("inode_number");
        reveal_strlit("cpu.");
        reveal_strlit("mem.");
        reveal_strlit("io.");
        reveal_strlit("pressure.");
        match self {
            Self::Cpu(field) => match other {
                Self::Cpu(other_field) => lemma_names_behind("cpu."@, field, other_field),
                _ => lemma_names_behind("cpu."@, field, field),
            },
            Self::Mem(field) => match other {
                Self::Mem(other_field) => lemma_names_behind("mem."@, field, other_field),
                _ => lemma_names_behind("mem."@, field, field),
            },
            Self::Io(field) => match other {
                Self::Io(other_field) => lemma_names_behind("io."@, field, other_field),
                _ => lemma_names_behind("io."@, field, field),
            },
            Self::Pressure(field) => match other {
                Self::Pressure(other_field) => lemma_names_behind("pressure."@, field, other_field),
                _ => lemma_names_behind("pressure."@, field, field),
            },
            _ => {},
        }
    }
}

impl FieldId for SingleCgroupModelFieldId {

}

/// The four sub-models of one control group.
#[derive(Clone, Copy, Debug, PartialEq, Eq, Hash, Structural)]
pub enum CgroupAggField {
    Cpu,
    Mem,
    Io,
    Pressure,
}

impl Named for CgroupAggField {
    open spec fn name(&self) -> Seq<char> {
        match self {
            Self::Cpu => "cpu"@,
            Self::Mem => "mem"@,
            Self::Io => "io"@,
            Self::Pressure => "pressure"@,
        }
    }

    fn to_string(&self) -> String {
        match self {
            Self::Cpu => "cpu".to_owned(),
            Self::Mem => "mem".to_owned(),
            Self::Io => "io".to_owned(),
            Self::Pressure => "pressure".to_owned(),
        }
    }
}

impl Catalog for CgroupAggField {
    open spec fn spec_all() -> Seq<Self> {
        seq![Self::Cpu, Self::Mem, Self::Io, Self::Pressure]
    }

    fn all() -> Vec<Self> {
        vec![Self::Cpu, Self::Mem, Self::Io, Self::Pressure]
    }

    proof fn lemma_listed(self) {
        let all = Self::spec_all();
        match self {
            Self::Cpu => assert(all[0] == self),
            Self::Mem => assert(all[1] == self),
            Self::Io => assert(all[2] == self),
            Self::Pressure => assert(all[3] == self),
        }
    }

    proof fn lemma_names(self, other: Self) {
        lemma_spell(self.name());
        lemma_spell(other.name());
        reveal_strlit("cpu");
        reveal_strlit("mem");
        reveal_strlit("io");
        reveal_strlit("pressure");
    }
}

impl AggField<SingleCgroupModelFieldId> for CgroupAggField {
    /// With `detail` every field of the sub-model; otherwise the fields that say
    /// most at a glance.
    open spec fn spec_expand(&self, detail: bool) -> Seq<SingleCgroupModelFieldId> {
        if detail {
            match self {
                Self::Cpu => CgroupCpuModelFieldId::spec_all().map_values(
                    |field: CgroupCpuModelFieldId| SingleCgroupModelFieldId::Cpu(field),
                ),
                Self::Mem => CgroupMemoryModelFieldId::spec_all().map_values(
                    |field: CgroupMemoryModelFieldId| SingleCgroupModelFieldId::Mem(field),
                ),
                Self::Io => CgroupIoModelFieldId::spec_all().map_values(
                    |field: CgroupIoModelFieldId| SingleCgroupModelFieldId::Io(field),
                ),
                Self::Pressure => CgroupPressureModelFieldId::spec_all().map_values(
                    |field: CgroupPressureModelFieldId| SingleCgroupModelFieldId::Pressure(field),
                ),
            }
        } else {
            match self {
                Self::Cpu => seq![
                    SingleCgroupModelFieldId::Cpu(CgroupCpuModelFieldId::UsagePct),
                ],
                Self::Mem => seq![
                    SingleCgroupModelFieldId::Mem(CgroupMemoryModelFieldId::Total),
                ],
                Self::Io => seq![
                    SingleCgroupModelFieldId::Io(CgroupIoModelFieldId::RbytesPerSec),
                    SingleCgroupModelFieldId::Io(CgroupIoModelFieldId::WbytesPerSec),
                ],
                Self::Pressure => seq![
                    SingleCgroupModelFieldId::Pressure(CgroupPressureModelFieldId::CpuSomePct),
                    SingleCgroupModelFieldId::Pressure(CgroupPressureModelFieldId::MemoryFullPct),
                    SingleCgroupModelFieldId::Pressure(CgroupPressureModelFieldId::IoFullPct),
                ],
            }
        }
    }

    fn expand(&self, detail: bool) -> Vec<SingleCgroupModelFieldId> {
        let fields = if detail {
            match self {
                Self::Cpu => mapped(
                    &CgroupCpuModelFieldId::all(),
                    |field: CgroupCpuModelFieldId| -> (wrapped: SingleCgroupModelFieldId)
                        ensures
                            wrapped == SingleCgroupModelFieldId::Cpu(field)
                        { SingleCgroupModelFieldId::Cpu(field) },
                    Ghost(|field: CgroupCpuModelFieldId| SingleCgroupModelFieldId::Cpu(field)),
                ),
                Self::Mem => mapped(
                    &CgroupMemoryModelFieldId::all(),
                    |field: CgroupMemoryModelFieldId| -> (wrapped: SingleCgroupModelFieldId)
                        ensures
                            wrapped == SingleCgroupModelFieldId::Mem(field)
                        { SingleCgroupModelFieldId::Mem(field) },
                    Ghost(|field: CgroupMemoryModelFieldId| SingleCgroupModelFieldId::Mem(field)),
                ),
                Self::Io => mapped(
                    &CgroupIoModelFieldId::all(),
                    |field: CgroupIoModelFieldId| -> (wrapped: SingleCgroupModelFieldId)
                        ensures
                            wrapped == SingleCgroupModelFieldId::Io(field)
                        { SingleCgroupModelFieldId::Io(field) },
                    Ghost(|field: CgroupIoModelFieldId| SingleCgroupModelFieldId::Io(field)),
                ),
                Self::Pressure => mapped(
                    &CgroupPressureModelFieldId::all(),
                    |field: CgroupPressureModelFieldId| -> (wrapped: SingleCgroupModelFieldId)
                        ensures
                            wrapped == SingleCgroupModelFieldId::Pressure(field)
                        { SingleCgroupModelFieldId::Pressure(field) },
                    Ghost(
                        |field: CgroupPressureModelFieldId| SingleCgroupModelFieldId::Pressure(field),
                    ),
                ),
            }
        } else {
            match self {
                Self::Cpu => vec![
                    SingleCgroupModelFieldId::Cpu(CgroupCpuModelFieldId::UsagePct),
                ],
                Self::Mem => vec![
                    SingleCgroupModelFieldId::Mem(CgroupMemoryModelFieldId::Total),
                ],
                Self::Io => vec![
                    SingleCgroupModelFieldId::Io(CgroupIoModelFieldId::RbytesPerSec),
                    SingleCgroupModelFieldId::Io(CgroupIoModelFieldId::WbytesPerSec),
                ],
                Self::Pressure => vec![
                    SingleCgroupModelFieldId::Pressure(CgroupPressureModelFieldId::CpuSomePct),
                    SingleCgroupModelFieldId::Pressure(CgroupPressureModelFieldId::MemoryFullPct),
                    SingleCgroupModelFieldId::Pressure(CgroupPressureModelFieldId::IoFullPct),
                ],
            }
        };
        proof {
            lemma_all_listed(fields@);
        }
        fields
    }
}

/// In the cgroup domain the curated selection of every group is part of its
/// full selection.
pub proof fn lemma_cgroup_detail_widens(agg: CgroupAggField, field: SingleCgroupModelFieldId)
    requires
        agg.spec_expand(false).contains(field),
    ensures
        agg.spec_expand(true).contains(field),
{
    let curated = agg.spec_expand(false);
    let k = choose|k: int| 0 <= k < curated.len() && curated[k] == field;
    match agg {
        CgroupAggField::Cpu => {
            let wrap = |field: CgroupCpuModelFieldId| SingleCgroupModelFieldId::Cpu(field);
            CgroupCpuModelFieldId::UsagePct.lemma_listed();
            lemma_listed_in_image(CgroupCpuModelFieldId::spec_all(), wrap);
            assert(wrap(CgroupCpuModelFieldId::UsagePct) == curated[0]);
        },
        CgroupAggField::Mem => {
            let wrap = |field: CgroupMemoryModelFieldId| SingleCgroupModelFieldId::Mem(field);
            CgroupMemoryModelFieldId::Total.lemma_listed();
            lemma_listed_in_image(CgroupMemoryModelFieldId::spec_all(), wrap);
            assert(wrap(CgroupMemoryModelFieldId::Total) == curated[0]);
        },
        CgroupAggField::Io => {
            let wrap = |field: CgroupIoModelFieldId| SingleCgroupModelFieldId::Io(field);
            CgroupIoModelFieldId::RbytesPerSec.lemma_listed();
            CgroupIoModelFieldId::WbytesPerSec.lemma_listed();
            lemma_listed_in_image(CgroupIoModelFieldId::spec_all(), wrap);
            assert(wrap(CgroupIoModelFieldId::RbytesPerSec) == curated[0]);
            assert(wrap(CgroupIoModelFieldId::WbytesPerSec) == curated[1]);
        },
        CgroupAggField::Pressure => {
            let wrap = |field: CgroupPressureModelFieldId|
                SingleCgroupModelFieldId::Pressure(field);
            CgroupPressureModelFieldId::CpuSomePct.lemma_listed();
            CgroupPressureModelFieldId::MemoryFullPct.lemma_listed();
            CgroupPressureModelFieldId::IoFullPct.lemma_listed();
            lemma_listed_in_image(CgroupPressureModelFieldId::spec_all(), wrap);
            assert(wrap(CgroupPressureModelFieldId::CpuSomePct) == curated[0]);
            assert(wrap(CgroupPressureModelFieldId::MemoryFullPct) == curated[1]);
            assert(wrap(CgroupPressureModelFieldId::IoFullPct) == curated[2]);
        },
    }
}

/// In the cgroup domain no name stands for two things: the names of the
/// common fields, of the groups and of the leaf fields are all apart.
pub proof fn lemma_cgroup_names_apart()
    ensures
        names_apart::<SingleCgroupModelFieldId, CgroupAggField>(),
{
    reveal_strlit("timestamp");
    reveal_strlit("datetime");
    reveal_strlit("cpu");
    reveal_strlit("mem");
    reveal_strlit("io");
    reveal_strlit("pressure");
    reveal_strlit("name");
    reveal_strlit("full_path");
    reveal_strlit("inode_number");
    reveal_strlit("cpu.");
    reveal_strlit("mem.");
    reveal_strlit("io.");
    reveal_strlit("pressure.");
    assert forall|common: CommonField, agg: CgroupAggField| common.name() != agg.name() by {
        lemma_spell(common.name());
        lemma_spell(agg.name());
    }
    assert forall|common: CommonField, field: SingleCgroupModelFieldId| common.name() != field.name() by {
        lemma_spell(common.name());
        lemma_spell(field.name());
    }
    assert forall|agg: CgroupAggField, field: SingleCgroupModelFieldId| agg.name() != field.name() by {
        lemma_spell(agg.name());
        lemma_spell(field.name());
    }
}

pub type CgroupOptionField = DumpOptionField<SingleCgroupModelFieldId, CgroupAggField>;

/// The selection that is shown when the user gives none.
pub open spec fn spec_default_cgroup_fields() -> Seq<CgroupOptionField> {
    seq![
        DumpOptionField::Unit(DumpField::FieldId(SingleCgroupModelFieldId::Name)),
        DumpOptionField::Unit(DumpField::FieldId(SingleCgroupModelFieldId::InodeNumber)),
        DumpOptionField::Unit(DumpField::Common(CommonField::Datetime)),
        DumpOptionField::Agg(CgroupAggField::Cpu),
        DumpOptionField::Agg(CgroupAggField::Mem),
        DumpOptionField::Agg(CgroupAggField::Io),
        DumpOptionField::Agg(CgroupAggField::Pressure),
        DumpOptionField::Unit(DumpField::Common(CommonField::Timestamp)),
    ]
}

pub fn default_cgroup_fields() -> (r: Vec<CgroupOptionField>)
    ensures
        r@ == spec_default_cgroup_fields(),
{
    vec![
        DumpOptionField::Unit(DumpField::FieldId(SingleCgroupModelFieldId::Name)),
        DumpOptionField::Unit(DumpField::FieldId(SingleCgroupModelFieldId::InodeNumber)),
        DumpOptionField::Unit(DumpField::Common(CommonField::Datetime)),
        DumpOptionField::Agg(CgroupAggField::Cpu),
        DumpOptionField::Agg(CgroupAggField::Mem),
        DumpOptionField::Agg(CgroupAggField::Io),
        DumpOptionField::Agg(CgroupAggField::Pressure),
        DumpOptionField::Unit(DumpField::Common(CommonField::Timestamp)),
    ]
}

pub const CGROUP_ABOUT: &'static str = "Dump cgroup stats";

pub const CGROUP_EXAMPLES: &'static str =
    "Simple example:\n\
     \n\
     $ below dump cgroup -b \"08:30:00\" -e \"08:30:30\" -f name cpu -O csv\n\
     \n\
     Output stats for all cgroups matching pattern \"below*\" for time slices\n\
     from 08:30:00 to 08:30:30:\n\
     \n\
     $ below dump cgroup -b \"08:30:00\" -e \"08:30:30\" -s name -F below* -O json\n\
     \n\
     Output stats for top 5 CPU intense cgroups for each time slice\n\
     from 08:30:00 to 08:30:30 recursively:\n\
     \n\
     $ below dump cgroup -b \"08:30:00\" -e \"08:30:30\" -s cpu.usage_pct --rsort --top 5\n\
     \n";

/// The long description of the cgroup command.
pub open spec fn spec_cgroup_long_about() -> Seq<char> {
    spec_long_about::<SingleCgroupModelFieldId, CgroupAggField>(
        CGROUP_ABOUT@,
        DETAIL_WIDENS@,
        spec_default_cgroup_fields(),
        CGROUP_EXAMPLES@,
    )
}

pub fn cgroup_long_about() -> (r: String)
    ensures
        r@ == spec_cgroup_long_about(),
{
    long_about::<SingleCgroupModelFieldId, CgroupAggField>(
        CGROUP_ABOUT,
        DETAIL_WIDENS,
        default_cgroup_fields().as_slice(),
        CGROUP_EXAMPLES,
    )
}

} // verus!
