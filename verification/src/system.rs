//! The system domain: one row for the whole machine.

use crate::catalog::{
    extend_mapped, lemma_all_listed, lemma_listed_in_concat, lemma_listed_in_image,
    lemma_names_behind, mapped, Catalog, Named,
};
use crate::field::{names_apart, AggField, CommonField, DumpField, DumpOptionField, FieldId};
use crate::help::{long_about, spec_long_about, DETAIL_WIDENS};
use crate::text::lemma_spell;
use vstd::prelude::*;
use vstd::string::StringExecFns;

verus! {

/// Counters of the whole machine.
#[derive(Clone, Copy, Debug, PartialEq, Eq, Hash, Structural)]
pub enum ProcStatModelFieldId {
    TotalInterruptCt,
    ContextSwitches,
    BootTimeEpochSecs,
    TotalProcesses,
    RunningProcesses,
    BlockedProcesses,
}

impl Named for ProcStatModelFieldId {
    open spec fn name(&self) -> Seq<char> {
        match self {
            Self::TotalInterruptCt => "total_interrupt_ct"@,
            Self::ContextSwitches => "context_switches"@,
            Self::BootTimeEpochSecs => "boot_time_epoch_secs"@,
            Self::TotalProcesses => "total_processes"@,
            Self::RunningProcesses => "running_processes"@,
            Self::BlockedProcesses => "blocked_processes"@,
        }
    }

    fn to_string(&self) -> String {
        match self {
            Self::TotalInterruptCt => "total_interrupt_ct".to_owned(),
            Self::ContextSwitches => "context_switches".to_owned(),
            Self::BootTimeEpochSecs => "boot_time_epoch_secs".to_owned(),
            Self::TotalProcesses => "total_processes".to_owned(),
            Self::RunningProcesses => "running_processes".to_owned(),
            Self::BlockedProcesses => "blocked_processes".to_owned(),
        }
    }
}

impl Catalog for ProcStatModelFieldId {
    open spec fn spec_all() -> Seq<Self> {
        seq![
            Self::TotalInterruptCt,
            Self::ContextSwitches,
            Self::BootTimeEpochSecs,
            Self::TotalProcesses,
            Self::RunningProcesses,
            Self::BlockedProcesses,
        ]
    }

    fn all() -> Vec<Self> {
        vec![
            Self::TotalInterruptCt,
            Self::ContextSwitches,
            Self::BootTimeEpochSecs,
            Self::TotalProcesses,
            Self::RunningProcesses,
            Self::BlockedProcesses,
        ]
    }

    proof fn lemma_listed(self) {
        let all = Self::spec_all();
        match self {
            Self::TotalInterruptCt => assert(all[0] == self),
            Self::ContextSwitches => assert(all[1] == self),
            Self::BootTimeEpochSecs => assert(all[2] == self),
            Self::TotalProcesses => assert(all[3] == self),
            Self::RunningProcesses => assert(all[4] == self),
            Self::BlockedProcesses => assert(all[5] == self),
        }
    }

    proof fn lemma_names(self, other: Self) {
        lemma_spell(self.name());
        lemma_spell(other.name());
        reveal_strlit("total_interrupt_ct");
        reveal_strlit("context_switches");
        reveal_strlit("boot_time_epoch_secs");
        reveal_strlit("total_processes");
        reveal_strlit("running_processes");
        reveal_strlit("blocked_processes");
    }
}

/// How one processor, or all of them together, spent its time.
#[derive(Clone, Copy, Debug, PartialEq, Eq, Hash, Structural)]
pub enum SingleCpuModelFieldId {
    Idx,
    UsagePct,
    UserPct,
    IdlePct,
    SystemPct,
    NicePct,
    IowaitPct,
    IrqPct,
    SoftirqPct,
    StolenPct,
    GuestPct,
    GuestNicePct,
}

impl Named for SingleCpuModelFieldId {
    open spec fn name(&self) -> Seq<char> {
        match self {
            Self::Idx => "idx"@,
            Self::UsagePct => "usage_pct"@,
            Self::UserPct => "user_pct"@,
            Self::IdlePct => "idle_pct"@,
            Self::SystemPct => "system_pct"@,
            Self::NicePct => "nice_pct"@,
            Self::IowaitPct => "iowait_pct"@,
            Self::IrqPct => "irq_pct"@,
            Self::SoftirqPct => "softirq_pct"@,
            Self::StolenPct => "stolen_pct"@,
            Self::GuestPct => "guest_pct"@,
            Self::GuestNicePct => "guest_nice_pct"@,
        }
    }

    fn to_string(&self) -> String {
        match self {
            Self::Idx => "idx".to_owned(),
            Self::UsagePct => "usage_pct".to_owned(),
            Self::UserPct => "user_pct".to_owned(),
            Self::IdlePct => "idle_pct".to_owned(),
            Self::SystemPct => "system_pct".to_owned(),
            Self::NicePct => "nice_pct".to_owned(),
            Self::IowaitPct => "iowait_pct".to_owned(),
            Self::IrqPct => "irq_pct".to_owned(),
            Self::SoftirqPct => "softirq_pct".to_owned(),
            Self::StolenPct => "stolen_pct".to_owned(),
            Self::GuestPct => "guest_pct".to_owned(),
            Self::GuestNicePct => "guest_nice_pct".to_owned(),
        }
    }
}

impl Catalog for SingleCpuModelFieldId {
    open spec fn spec_all() -> Seq<Self> {
        seq![
            Self::Idx,
            Self::UsagePct,
            Self::UserPct,
            Self::IdlePct,
            Self::SystemPct,
            Self::NicePct,
            Self::IowaitPct,
            Self::IrqPct,
            Self::SoftirqPct,
            Self::StolenPct,
            Self::GuestPct,
            Self::GuestNicePct,
        ]
    }

    fn all() -> Vec<Self> {
        vec![
            Self::Idx,
            Self::UsagePct,
            Self::UserPct,
            Self::IdlePct,
            Self::SystemPct,
            Self::NicePct,
            Self::IowaitPct,
            Self::IrqPct,
            Self::SoftirqPct,
            Self::StolenPct,
            Self::GuestPct,
            Self::GuestNicePct,
        ]
    }

    proof fn lemma_listed(self) {
        let all = Self::spec_all();
        match self {
            Self::Idx => assert(all[0] == self),
            Self::UsagePct => assert(all[1] == self),
            Self::UserPct => assert(all[2] == self),
            Self::IdlePct => assert(all[3] == self),
            Self::SystemPct => assert(all[4] == self),
            Self::NicePct => assert(all[5] == self),
            Self::IowaitPct => assert(all[6] == self),
            Self::IrqPct => assert(all[7] == self),
            Self::SoftirqPct => assert(all[8] == self),
            Self::StolenPct => assert(all[9] == self),
            Self::GuestPct => assert(all[10] == self),
            Self::GuestNicePct => assert(all[11] == self),
        }
    }

    proof fn lemma_names(self, other: Self) {
        lemma_spell(self.name());
        lemma_spell(other.name());
        reveal_strlit("idx");
        reveal_strlit("usage_pct");
        reveal_strlit("user_pct");
        reveal_strlit("idle_pct");
        reveal_strlit("system_pct");
        reveal_strlit("nice_pct");
        reveal_strlit("iowait_pct");
        reveal_strlit("irq_pct");
        reveal_strlit("softirq_pct");
        reveal_strlit("stolen_pct");
        reveal_strlit("guest_pct");
        reveal_strlit("guest_nice_pct");
    }
}

/// Memory of the whole machine.
#[derive(Clone, Copy, Debug, PartialEq, Eq, Hash, Structural)]
pub enum MemoryModelFieldId {
    Total,
    Free,
    Available,
    Buffers,
    Cached,
    SwapCached,
    Active,
    Inactive,
    Anon,
    File,
    Unevictable,
    Mlocked,
    SwapTotal,
    SwapFree,
    Dirty,
    Writeback,
    AnonPages,
    Mapped,
    Shmem,
    Kreclaimable,
    Slab,
    SlabReclaimable,
    SlabUnreclaimable,
    KernelStack,
    PageTables,
    AnonHugePagesBytes,
    ShmemHugePagesBytes,
    FileHugePagesBytes,
    Hugetlb,
    CmaTotal,
    CmaFree,
    VmallocTotal,
    VmallocUsed,
    VmallocChunk,
    DirectMap4k,
    DirectMap2m,
    DirectMap1g,
}

impl Named for MemoryModelFieldId {
    open spec fn name(&self) -> Seq<char> {
        match self {
            Self::Total => "total"@,
            Self::Free => "free"@,
            Self::Available => "available"@,
            Self::Buffers => "buffers"@,
            Self::Cached => "cached"@,
            Self::SwapCached => "swap_cached"@,
            Self::Active => "active"@,
            Self::Inactive => "inactive"@,
            Self::Anon => "anon"@,
            Self::File => "file"@,
            Self::Unevictable => "unevictable"@,
            Self::Mlocked => "mlocked"@,
            Self::SwapTotal => "swap_total"@,
            Self::SwapFree => "swap_free"@,
            Self::Dirty => "dirty"@,
            Self::Writeback => "writeback"@,
            Self::AnonPages => "anon_pages"@,
            Self::Mapped => "mapped"@,
            Self::Shmem => "shmem"@,
            Self::Kreclaimable => "kreclaimable"@,
            Self::Slab => "slab"@,
            Self::SlabReclaimable => "slab_reclaimable"@,
            Self::SlabUnreclaimable => "slab_unreclaimable"@,
            Self::KernelStack => "kernel_stack"@,
            Self::PageTables => "page_tables"@,
            Self::AnonHugePagesBytes => "anon_huge_pages_bytes"@,
            Self::ShmemHugePagesBytes => "shmem_huge_pages_bytes"@,
            Self::FileHugePagesBytes => "file_huge_pages_bytes"@,
            Self::Hugetlb => "hugetlb"@,
            Self::CmaTotal => "cma_total"@,
            Self::CmaFree => "cma_free"@,
            Self::VmallocTotal => "vmalloc_total"@,
            Self::VmallocUsed => "vmalloc_used"@,
            Self::VmallocChunk => "vmalloc_chunk"@,
            Self::DirectMap4k => "direct_map_4k"@,
            Self::DirectMap2m => "direct_map_2m"@,
            Self::DirectMap1g => "direct_map_1g"@,
        }
    }

    fn to_string(&self) -> String {
        match self {
            Self::Total => "total".to_owned(),
            Self::Free => "free".to_owned(),
            Self::Available => "available".to_owned(),
            Self::Buffers => "buffers".to_owned(),
            Self::Cached => "cached".to_owned(),
            Self::SwapCached => "swap_cached".to_owned(),
            Self::Active => "active".to_owned(),
            Self::Inactive => "inactive".to_owned(),
            Self::Anon => "anon".to_owned(),
            Self::File => "file".to_owned(),
            Self::Unevictable => "unevictable".to_owned(),
            Self::Mlocked => "mlocked".to_owned(),
            Self::SwapTotal => "swap_total".to_owned(),
            Self::SwapFree => "swap_free".to_owned(),
            Self::Dirty => "dirty".to_owned(),
            Self::Writeback => "writeback".to_owned(),
            Self::AnonPages => "anon_pages".to_owned(),
            Self::Mapped => "mapped".to_owned(),
            Self::Shmem => "shmem".to_owned(),
            Self::Kreclaimable => "kreclaimable".to_owned(),
            Self::Slab => "slab".to_owned(),
            Self::SlabReclaimable => "slab_reclaimable".to_owned(),
            Self::SlabUnreclaimable => "slab_unreclaimable".to_owned(),
            Self::KernelStack => "kernel_stack".to_owned(),
            Self::PageTables => "page_tables".to_owned(),
            Self::AnonHugePagesBytes => "anon_huge_pages_bytes".to_owned(),
            Self::ShmemHugePagesBytes => "shmem_huge_pages_bytes".to_owned(),
            Self::FileHugePagesBytes => "file_huge_pages_bytes".to_owned(),
            Self::Hugetlb => "hugetlb".to_owned(),
            Self::CmaTotal => "cma_total".to_owned(),
            Self::CmaFree => "cma_free".to_owned(),
            Self::VmallocTotal => "vmalloc_total".to_owned(),
            Self::VmallocUsed => "vmalloc_used".to_owned(),
            Self::VmallocChunk => "vmalloc_chunk".to_owned(),
            Self::DirectMap4k => "direct_map_4k".to_owned(),
            Self::DirectMap2m => "direct_map_2m".to_owned(),
            Self::DirectMap1g => "direct_map_1g".to_owned(),
        }
    }
}

impl Catalog for MemoryModelFieldId {
    open spec fn spec_all() -> Seq<Self> {
        seq![
            Self::Total,
            Self::Free,
            Self::Available,
            Self::Buffers,
            Self::Cached,
            Self::SwapCached,
            Self::Active,
            Self::Inactive,
            Self::Anon,
            Self::File,
            Self::Unevictable,
            Self::Mlocked,
            Self::SwapTotal,
            Self::SwapFree,
            Self::Dirty,
            Self::Writeback,
            Self::AnonPages,
            Self::Mapped,
            Self::Shmem,
            Self::Kreclaimable,
            Self::Slab,
            Self::SlabReclaimable,
            Self::SlabUnreclaimable,
            Self::KernelStack,
            Self::PageTables,
            Self::AnonHugePagesBytes,
            Self::ShmemHugePagesBytes,
            Self::FileHugePagesBytes,
            Self::Hugetlb,
            Self::CmaTotal,
            Self::CmaFree,
            Self::VmallocTotal,
            Self::VmallocUsed,
            Self::VmallocChunk,
            Self::DirectMap4k,
            Self::DirectMap2m,
            Self::DirectMap1g,
        ]
    }

    fn all() -> Vec<Self> {
        vec![
            Self::Total,
            Self::Free,
            Self::Available,
            Self::Buffers,
            Self::Cached,
            Self::SwapCached,
            Self::Active,
            Self::Inactive,
            Self::Anon,
            Self::File,
            Self::Unevictable,
            Self::Mlocked,
            Self::SwapTotal,
            Self::SwapFree,
            Self::Dirty,
            Self::Writeback,
            Self::AnonPages,
            Self::Mapped,
            Self::Shmem,
            Self::Kreclaimable,
            Self::Slab,
            Self::SlabReclaimable,
            Self::SlabUnreclaimable,
            Self::KernelStack,
            Self::PageTables,
            Self::AnonHugePagesBytes,
            Self::ShmemHugePagesBytes,
            Self::FileHugePagesBytes,
            Self::Hugetlb,
            Self::CmaTotal,
            Self::CmaFree,
            Self::VmallocTotal,
            Self::VmallocUsed,
            Self::VmallocChunk,
            Self::DirectMap4k,
            Self::DirectMap2m,
            Self::DirectMap1g,
        ]
    }

    proof fn lemma_listed(self) {
        let all = Self::spec_all();
        match self {
            Self::Total => assert(all[0] == self),
            Self::Free => assert(all[1] == self),
            Self::Available => assert(all[2] == self),
            Self::Buffers => assert(all[3] == self),
            Self::Cached => assert(all[4] == self),
            Self::SwapCached => assert(all[5] == self),
            Self::Active => assert(all[6] == self),
            Self::Inactive => assert(all[7] == self),
            Self::Anon => assert(all[8] == self),
            Self::File => assert(all[9] == self),
            Self::Unevictable => assert(all[10] == self),
            Self::Mlocked => assert(all[11] == self),
            Self::SwapTotal => assert(all[12] == self),
            Self::SwapFree => assert(all[13] == self),
            Self::Dirty => assert(all[14] == self),
            Self::Writeback => assert(all[15] == self),
            Self::AnonPages => assert(all[16] == self),
            Self::Mapped => assert(all[17] == self),
            Self::Shmem => assert(all[18] == self),
            Self::Kreclaimable => assert(all[19] == self),
            Self::Slab => assert(all[20] == self),
            Self::SlabReclaimable => assert(all[21] == self),
            Self::SlabUnreclaimable => assert(all[22] == self),
            Self::KernelStack => assert(all[23] == self),
            Self::PageTables => assert(all[24] == self),
            Self::AnonHugePagesBytes => assert(all[25] == self),
            Self::ShmemHugePagesBytes => assert(all[26] == self),
            Self::FileHugePagesBytes => assert(all[27] == self),
            Self::Hugetlb => assert(all[28] == self),
            Self::CmaTotal => assert(all[29] == self),
            Self::CmaFree => assert(all[30] == self),
            Self::VmallocTotal => assert(all[31] == self),
            Self::VmallocUsed => assert(all[32] == self),
            Self::VmallocChunk => assert(all[33] == self),
            Self::DirectMap4k => assert(all[34] == self),
            Self::DirectMap2m => assert(all[35] == self),
            Self::DirectMap1g => assert(all[36] == self),
        }
    }

    proof fn lemma_names(self, other: Self) {
        lemma_spell(self.name());
        lemma_spell(other.name());
        reveal_strlit("total");
        reveal_strlit("free");
        reveal_strlit("available");
        reveal_strlit("buffers");
        reveal_strlit("cached");
        reveal_strlit("swap_cached");
        reveal_strlit("active");
        reveal_strlit("inactive");
        reveal_strlit("anon");
        reveal_strlit("file");
        reveal_strlit("unevictable");
        reveal_strlit("mlocked");
        reveal_strlit("swap_total");
        reveal_strlit("swap_free");
        reveal_strlit("dirty");
        reveal_strlit("writeback");
        reveal_strlit("anon_pages");
        reveal_strlit("mapped");
        reveal_strlit("shmem");
        reveal_strlit("kreclaimable");
        reveal_strlit("slab");
        reveal_strlit("slab_reclaimable");
        reveal_strlit("slab_unreclaimable");
        reveal_strlit("kernel_stack");
        reveal_strlit("page_tables");
        reveal_strlit("anon_huge_pages_bytes");
        reveal_strlit("shmem_huge_pages_bytes");
        reveal_strlit("file_huge_pages_bytes");
        reveal_strlit("hugetlb");
        reveal_strlit("cma_total");
        reveal_strlit("cma_free");
        reveal_strlit("vmalloc_total");
        reveal_strlit("vmalloc_used");
        reveal_strlit("vmalloc_chunk");
        reveal_strlit("direct_map_4k");
        reveal_strlit("direct_map_2m");
        reveal_strlit("direct_map_1g");
    }
}

/// Paging and swapping of the whole machine.
#[derive(Clone, Copy, Debug, PartialEq, Eq, Hash, Structural)]
pub enum VmModelFieldId {
    PgpginPerSec,
    PgpgoutPerSec,
    PswpinPerSec,
    PswpoutPerSec,
    PgstealKswapd,
    PgstealDirect,
    PgscanKswapd,
    PgscanDirect,
    OomKill,
}

impl Named for VmModelFieldId {
    open spec fn name(&self) -> Seq<char> {
        match self {
            Self::PgpginPerSec => "pgpgin_per_sec"@,
            Self::PgpgoutPerSec => "pgpgout_per_sec"@,
            Self::PswpinPerSec => "pswpin_per_sec"@,
            Self::PswpoutPerSec => "pswpout_per_sec"@,
            Self::PgstealKswapd => "pgsteal_kswapd"@,
            Self::PgstealDirect => "pgsteal_direct"@,
            Self::PgscanKswapd => "pgscan_kswapd"@,
            Self::PgscanDirect => "pgscan_direct"@,
            Self::OomKill => "oom_kill"@,
        }
    }

    fn to_string(&self) -> String {
        match self {
            Self::PgpginPerSec => "pgpgin_per_sec".to_owned(),
            Self::PgpgoutPerSec => "pgpgout_per_sec".to_owned(),
            Self::PswpinPerSec => "pswpin_per_sec".to_owned(),
            Self::PswpoutPerSec => "pswpout_per_sec".to_owned(),
            Self::PgstealKswapd => "pgsteal_kswapd".to_owned(),
            Self::PgstealDirect => "pgsteal_direct".to_owned(),
            Self::PgscanKswapd => "pgscan_kswapd".to_owned(),
            Self::PgscanDirect => "pgscan_direct".to_owned(),
            Self::OomKill => "oom_kill".to_owned(),
        }
    }
}

impl Catalog for VmModelFieldId {
    open spec fn spec_all() -> Seq<Self> {
        seq![
            Self::PgpginPerSec,
            Self::PgpgoutPerSec,
            Self::PswpinPerSec,
            Self::PswpoutPerSec,
            Self::PgstealKswapd,
            Self::PgstealDirect,
            Self::PgscanKswapd,
            Self::PgscanDirect,
            Self::OomKill,
        ]
    }

    fn all() -> Vec<Self> {
        vec![
            Self::PgpginPerSec,
            Self::PgpgoutPerSec,
            Self::PswpinPerSec,
            Self::PswpoutPerSec,
            Self::PgstealKswapd,
            Self::PgstealDirect,
            Self::PgscanKswapd,
            Self::PgscanDirect,
            Self::OomKill,
        ]
    }

    proof fn lemma_listed(self) {
        let all = Self::spec_all();
        match self {
            Self::PgpginPerSec => assert(all[0] == self),
            Self::PgpgoutPerSec => assert(all[1] == self),
            Self::PswpinPerSec => assert(all[2] == self),
            Self::PswpoutPerSec => assert(all[3] == self),
            Self::PgstealKswapd => assert(all[4] == self),
            Self::PgstealDirect => assert(all[5] == self),
            Self::PgscanKswapd => assert(all[6] == self),
            Self::PgscanDirect => assert(all[7] == self),
            Self::OomKill => assert(all[8] == self),
        }
    }

    proof fn lemma_names(self, other: Self) {
        lemma_spell(self.name());
        lemma_spell(other.name());
        reveal_strlit("pgpgin_per_sec");
        reveal_strlit("pgpgout_per_sec");
        reveal_strlit("pswpin_per_sec");
        reveal_strlit("pswpout_per_sec");
        reveal_strlit("pgsteal_kswapd");
        reveal_strlit("pgsteal_direct");
        reveal_strlit("pgscan_kswapd");
        reveal_strlit("pgscan_direct");
        reveal_strlit("oom_kill");
    }
}

/// Leaf fields of the system domain.
#[derive(Clone, Copy, Debug, PartialEq, Eq, Hash, Structural)]
pub enum SystemModelFieldId {
    Hostname,
    KernelVersion,
    OsRelease,
    Stat(ProcStatModelFieldId),
    Cpu(SingleCpuModelFieldId),
    Mem(MemoryModelFieldId),
    Vm(VmModelFieldId),
}

impl Named for SystemModelFieldId {
    open spec fn name(&self) -> Seq<char> {
        match self {
            Self::Hostname => "hostname"@,
            Self::KernelVersion => "kernel_version"@,
            Self::OsRelease => "os_release"@,
            Self::Stat(field) => "stat."@ + field.name(),
            Self::Cpu(field) => "cpu."@ + field.name(),
            Self::Mem(field) => "mem."@ + field.name(),
            Self::Vm(field) => "vm."@ + field.name(),
        }
    }

    fn to_string(&self) -> String {
        match self {
            Self::Hostname => "hostname".to_owned(),
            Self::KernelVersion => "kernel_version".to_owned(),
            Self::OsRelease => "os_release".to_owned(),
            Self::Stat(field) => "stat.".to_owned().concat(field.to_string().as_str()),
            Self::Cpu(field) => "cpu.".to_owned().concat(field.to_string().as_str()),
            Self::Mem(field) => "mem.".to_owned().concat(field.to_string().as_str()),
            Self::Vm(field) => "vm.".to_owned().concat(field.to_string().as_str()),
        }
    }
}

impl Catalog for SystemModelFieldId {
    open spec fn spec_all() -> Seq<Self> {
        seq![Self::Hostname, Self::KernelVersion, Self::OsRelease]
            + ProcStatModelFieldId::spec_all().map_values(
                |field: ProcStatModelFieldId| Self::Stat(field),
            )
            + SingleCpuModelFieldId::spec_all().map_values(
                |field: SingleCpuModelFieldId| Self::Cpu(field),
            )
            + MemoryModelFieldId::spec_all().map_values(
                |field: MemoryModelFieldId| Self::Mem(field),
            )
            + VmModelFieldId::spec_all().map_values(
                |field: VmModelFieldId| Self::Vm(field),
            )
    }

    fn all() -> Vec<Self> {
        let mut all = vec![Self::Hostname, Self::KernelVersion, Self::OsRelease];
        extend_mapped(
            &mut all,
            &ProcStatModelFieldId::all(),
            |field: ProcStatModelFieldId| -> (wrapped: Self)
                ensures
                    wrapped == Self::Stat(field)
                { Self::Stat(field) },
            Ghost(|field: ProcStatModelFieldId| Self::Stat(field)),
        );
        extend_mapped(
            &mut all,
            &SingleCpuModelFieldId::all(),
            |field: SingleCpuModelFieldId| -> (wrapped: Self)
                ensures
                    wrapped == Self::Cpu(field)
                { Self::Cpu(field) },
            Ghost(|field: SingleCpuModelFieldId| Self::Cpu(field)),
        );
        extend_mapped(
            &mut all,
            &MemoryModelFieldId::all(),
            |field: MemoryModelFieldId| -> (wrapped: Self)
                ensures
                    wrapped == Self::Mem(field)
                { Self::Mem(field) },
            Ghost(|field: MemoryModelFieldId| Self::Mem(field)),
        );
        extend_mapped(
            &mut all,
            &VmModelFieldId::all(),
            |field: VmModelFieldId| -> (wrapped: Self)
                ensures
                    wrapped == Self::Vm(field)
                { Self::Vm(field) },
            Ghost(|field: VmModelFieldId| Self::Vm(field)),
        );
        assert(all@ =~= Self::spec_all());
        all
    }

    proof fn lemma_listed(self) {
        let units = seq![Self::Hostname, Self::KernelVersion, Self::OsRelease];
        let wrap_stat = |field: ProcStatModelFieldId| Self::Stat(field);
        let stat = ProcStatModelFieldId::spec_all().map_values(wrap_stat);
        let wrap_cpu = |field: SingleCpuModelFieldId| Self::Cpu(field);
        let cpu = SingleCpuModelFieldId::spec_all().map_values(wrap_cpu);
        let wrap_mem = |field: MemoryModelFieldId| Self::Mem(field);
        let mem = MemoryModelFieldId::spec_all().map_values(wrap_mem);
        let wrap_vm = |field: VmModelFieldId| Self::Vm(field);
        let vm = VmModelFieldId::spec_all().map_values(wrap_vm);
        lemma_listed_in_concat(units, stat);
        lemma_listed_in_concat(units + stat, cpu);
        lemma_listed_in_concat(units + stat + cpu, mem);
        lemma_listed_in_concat(units + stat + cpu + mem, vm);
        assert(Self::spec_all() =~= units + stat + cpu + mem + vm);
        match self {
            Self::Hostname => assert(units[0] == self),
            Self::KernelVersion => assert(units[1] == self),
            Self::OsRelease => assert(units[2] == self),
            Self::Stat(field) => {
                field.lemma_listed();
                lemma_listed_in_image(ProcStatModelFieldId::spec_all(), wrap_stat);
                assert(wrap_stat(field) == self);
            },
            Self::Cpu(field) => {
                field.lemma_listed();
                lemma_listed_in_image(SingleCpuModelFieldId::spec_all(), wrap_cpu);
                assert(wrap_cpu(field) == self);
            },
            Self::Mem(field) => {
                field.lemma_listed();
                lemma_listed_in_image(MemoryModelFieldId::spec_all(), wrap_mem);
                assert(wrap_mem(field) == self);
            },
            Self::Vm(field) => {
                field.lemma_listed();
                lemma_listed_in_image(VmModelFieldId::spec_all(), wrap_vm);
                assert(wrap_vm(field) == self);
            },
        }
    }

    proof fn lemma_names(self, other: Self) {
        lemma_spell(self.name());
        lemma_spell(other.name());
        reveal_strlit("hostname");
        reveal_strlit("kernel_version");
        reveal_strlit("os_release");
        reveal_strlit("stat.");
        reveal_strlit("cpu.");
        reveal_strlit("mem.");
        reveal_strlit("vm.");
        match self {
            Self::Stat(field) => match other {
                Self::Stat(other_field) => lemma_names_behind("stat."@, field, other_field),
                _ => lemma_names_behind("stat."@, field, field),
            },
            Self::Cpu(field) => match other {
                Self::Cpu(other_field) => lemma_names_behind("cpu."@, field, other_field),
                _ => lemma_names_behind("cpu."@, field, field),
            },
            Self::Mem(field) => match other {
                Self::Mem(other_field) => lemma_names_behind("mem."@, field, other_field),
                _ => lemma_names_behind("mem."@, field, field),
            },
            Self::Vm(field) => match other {
                Self::Vm(other_field) => lemma_names_behind("vm."@, field, other_field),
                _ => lemma_names_behind("vm."@, field, field),
            },
            _ => {},
        }
    }
}

impl FieldId for SystemModelFieldId {

}

/// The four sub-models of the system domain.
#[derive(Clone, Copy, Debug, PartialEq, Eq, Hash, Structural)]
pub enum SystemAggField {
    Cpu,
    Mem,
    Vm,
    Stat,
}

impl Named for SystemAggField {
    open spec fn name(&self) -> Seq<char> {
        match self {
            Self::Cpu => "cpu"@,
            Self::Mem => "mem"@,
            Self::Vm => "vm"@,
            Self::Stat => "stat"@,
        }
    }

    fn to_string(&self) -> String {
        match self {
            Self::Cpu => "cpu".to_owned(),
            Self::Mem => "mem".to_owned(),
            Self::Vm => "vm".to_owned(),
            Self::Stat => "stat".to_owned(),
        }
    }
}

impl Catalog for SystemAggField {
    open spec fn spec_all() -> Seq<Self> {
        seq![Self::Cpu, Self::Mem, Self::Vm, Self::Stat]
    }

    fn all() -> Vec<Self> {
        vec![Self::Cpu, Self::Mem, Self::Vm, Self::Stat]
    }

    proof fn lemma_listed(self) {
        let all = Self::spec_all();
        match self {
            Self::Cpu => assert(all[0] == self),
            Self::Mem => assert(all[1] == self),
            Self::Vm => assert(all[2] == self),
            Self::Stat => assert(all[3] == self),
        }
    }

    proof fn lemma_names(self, other: Self) {
        lemma_spell(self.name());
        lemma_spell(other.name());
        reveal_strlit("cpu");
        reveal_strlit("mem");
        reveal_strlit("vm");
        reveal_strlit("stat");
    }
}

/// Every field of a processor but its index: the group stands for all
/// processors together, for which the index says nothing.
pub open spec fn spec_cpu_without_idx() -> Seq<SingleCpuModelFieldId> {
    SingleCpuModelFieldId::spec_all().filter(
        |field: SingleCpuModelFieldId| field != SingleCpuModelFieldId::Idx,
    )
}

fn cpu_without_idx() -> (kept: Vec<SingleCpuModelFieldId>)
    ensures
        kept@ == spec_cpu_without_idx(),
        kept@.len() > 0,
{
    let all = SingleCpuModelFieldId::all();
    let ghost keep = |field: SingleCpuModelFieldId| field != SingleCpuModelFieldId::Idx;
    let mut kept = Vec::new();
    let mut i: usize = 0;
    assert(all@.take(0).filter(keep) =~= Seq::empty()) by {
        reveal(Seq::filter);
    }
    while i < all.len()
        invariant
            i <= all.len(),
            all@ == SingleCpuModelFieldId::spec_all(),
            keep == |field: SingleCpuModelFieldId| field != SingleCpuModelFieldId::Idx,
            kept@ == all@.take(i as int).filter(keep),
        decreases all.len() - i,
    {
        proof {
            all@.lemma_take_succ_push(i as int);
            all@.take(i as int).lemma_filter_push(all@[i as int], keep);
        }
        if all[i] != SingleCpuModelFieldId::Idx {
            kept.push(all[i]);
        }
        i += 1;
    }
    proof {
        assert(all@.take(i as int) =~= all@);
        assert(all@[1] == SingleCpuModelFieldId::UsagePct);
        all@.lemma_filter_contains(keep, 1);
    }
    kept
}

impl AggField<SystemModelFieldId> for SystemAggField {
    /// With `detail` every field of the sub-model, for `cpu` without the index;
    /// otherwise the fields that say most at a glance.
    open spec fn spec_expand(&self, detail: bool) -> Seq<SystemModelFieldId> {
        if detail {
            match self {
                Self::Cpu => spec_cpu_without_idx().map_values(
                    |field: SingleCpuModelFieldId| SystemModelFieldId::Cpu(field),
                ),
                Self::Mem => MemoryModelFieldId::spec_all().map_values(
                    |field: MemoryModelFieldId| SystemModelFieldId::Mem(field),
                ),
                Self::Vm => VmModelFieldId::spec_all().map_values(
                    |field: VmModelFieldId| SystemModelFieldId::Vm(field),
                ),
                Self::Stat => ProcStatModelFieldId::spec_all().map_values(
                    |field: ProcStatModelFieldId| SystemModelFieldId::Stat(field),
                ),
            }
        } else {
            match self {
                Self::Cpu => seq![
                    SystemModelFieldId::Cpu(SingleCpuModelFieldId::UsagePct),
                    SystemModelFieldId::Cpu(SingleCpuModelFieldId::UserPct),
                    SystemModelFieldId::Cpu(SingleCpuModelFieldId::SystemPct),
                ],
                Self::Mem => seq![
                    SystemModelFieldId::Mem(MemoryModelFieldId::Total),
                    SystemModelFieldId::Mem(MemoryModelFieldId::Free),
                ],
                Self::Vm => VmModelFieldId::spec_all().map_values(
                    |field: VmModelFieldId| SystemModelFieldId::Vm(field),
                ),
                Self::Stat => ProcStatModelFieldId::spec_all().map_values(
                    |field: ProcStatModelFieldId| SystemModelFieldId::Stat(field),
                ),
            }
        }
    }

    fn expand(&self, detail: bool) -> Vec<SystemModelFieldId> {
        let fields = if detail {
            match self {
                Self::Cpu => mapped(
                    &cpu_without_idx(),
                    |field: SingleCpuModelFieldId| -> (wrapped: SystemModelFieldId)
                        ensures
                            wrapped == SystemModelFieldId::Cpu(field)
                        { SystemModelFieldId::Cpu(field) },
                    Ghost(|field: SingleCpuModelFieldId| SystemModelFieldId::Cpu(field)),
                ),
                Self::Mem => mapped(
                    &MemoryModelFieldId::all(),
                    |field: MemoryModelFieldId| -> (wrapped: SystemModelFieldId)
                        ensures
                            wrapped == SystemModelFieldId::Mem(field)
                        { SystemModelFieldId::Mem(field) },
                    Ghost(|field: MemoryModelFieldId| SystemModelFieldId::Mem(field)),
                ),
                Self::Vm => mapped(
                    &VmModelFieldId::all(),
                    |field: VmModelFieldId| -> (wrapped: SystemModelFieldId)
                        ensures
                            wrapped == SystemModelFieldId::Vm(field)
                        { SystemModelFieldId::Vm(field) },
                    Ghost(|field: VmModelFieldId| SystemModelFieldId::Vm(field)),
                ),
                Self::Stat => mapped(
                    &ProcStatModelFieldId::all(),
                    |field: ProcStatModelFieldId| -> (wrapped: SystemModelFieldId)
                        ensures
                            wrapped == SystemModelFieldId::Stat(field)
                        { SystemModelFieldId::Stat(field) },
                    Ghost(|field: ProcStatModelFieldId| SystemModelFieldId::Stat(field)),
                ),
            }
        } else {
            match self {
                Self::Cpu => vec![
                    SystemModelFieldId::Cpu(SingleCpuModelFieldId::UsagePct),
                    SystemModelFieldId::Cpu(SingleCpuModelFieldId::UserPct),
                    SystemModelFieldId::Cpu(SingleCpuModelFieldId::SystemPct),
                ],
                Self::Mem => vec![
                    SystemModelFieldId::Mem(MemoryModelFieldId::Total),
                    SystemModelFieldId::Mem(MemoryModelFieldId::Free),
                ],
                Self::Vm => mapped(
                    &VmModelFieldId::all(),
                    |field: VmModelFieldId| -> (wrapped: SystemModelFieldId)
                        ensures
                            wrapped == SystemModelFieldId::Vm(field)
                        { SystemModelFieldId::Vm(field) },
                    Ghost(|field: VmModelFieldId| SystemModelFieldId::Vm(field)),
                ),
                Self::Stat => mapped(
                    &ProcStatModelFieldId::all(),
                    |field: ProcStatModelFieldId| -> (wrapped: SystemModelFieldId)
                        ensures
                            wrapped == SystemModelFieldId::Stat(field)
                        { SystemModelFieldId::Stat(field) },
                    Ghost(|field: ProcStatModelFieldId| SystemModelFieldId::Stat(field)),
                ),
            }
        };
        proof {
            lemma_all_listed(fields@);
        }
        fields
    }
}

/// In the system domain the curated selection of every group is part of its
/// full selection.
pub proof fn lemma_system_detail_widens(agg: SystemAggField, field: SystemModelFieldId)
    requires
        agg.spec_expand(false).contains(field),
    ensures
        agg.spec_expand(true).contains(field),
{
    let curated = agg.spec_expand(false);
    let k = choose|k: int| 0 <= k < curated.len() && curated[k] == field;
    match agg {
        SystemAggField::Cpu => {
            let all = SingleCpuModelFieldId::spec_all();
            let keep = |field: SingleCpuModelFieldId| field != SingleCpuModelFieldId::Idx;
            let wrap = |field: SingleCpuModelFieldId| SystemModelFieldId::Cpu(field);
            all.lemma_filter_contains(keep, 1);
            all.lemma_filter_contains(keep, 2);
            all.lemma_filter_contains(keep, 4);
            lemma_listed_in_image(spec_cpu_without_idx(), wrap);
            assert(wrap(all[1]) == curated[0]);
            assert(wrap(all[2]) == curated[1]);
            assert(wrap(all[4]) == curated[2]);
        },
        SystemAggField::Mem => {
            let all = MemoryModelFieldId::spec_all();
            let wrap = |field: MemoryModelFieldId| SystemModelFieldId::Mem(field);
            MemoryModelFieldId::Total.lemma_listed();
            MemoryModelFieldId::Free.lemma_listed();
            lemma_listed_in_image(all, wrap);
            assert(wrap(MemoryModelFieldId::Total) == curated[0]);
            assert(wrap(MemoryModelFieldId::Free) == curated[1]);
        },
        SystemAggField::Vm => {},
        SystemAggField::Stat => {},
    }
}

/// In the system domain no name stands for two things: the names of the
/// common fields, of the groups and of the leaf fields are all apart.
pub proof fn lemma_system_names_apart()
    ensures
        names_apart::<SystemModelFieldId, SystemAggField>(),
{
    reveal_strlit("timestamp");
    reveal_strlit("datetime");
    reveal_strlit("cpu");
    reveal_strlit("mem");
    reveal_strlit("vm");
    reveal_strlit("stat");
    reveal_strlit("hostname");
    reveal_strlit("kernel_version");
    reveal_strlit("os_release");
    reveal_strlit("stat.");
    reveal_strlit("cpu.");
    reveal_strlit("mem.");
    reveal_strlit("vm.");
    assert forall|common: CommonField, agg: SystemAggField| common.name() != agg.name() by {
        lemma_spell(common.name());
        lemma_spell(agg.name());
    }
    assert forall|common: CommonField, field: SystemModelFieldId| common.name() != field.name() by {
        lemma_spell(common.name());
        lemma_spell(field.name());
    }
    assert forall|agg: SystemAggField, field: SystemModelFieldId| agg.name() != field.name() by {
        lemma_spell(agg.name());
        lemma_spell(field.name());
    }
}

pub type SystemOptionField = DumpOptionField<SystemModelFieldId, SystemAggField>;

/// The selection that is shown when the user gives none.
pub open spec fn spec_default_system_fields() -> Seq<SystemOptionField> {
    seq![
        DumpOptionField::Unit(DumpField::FieldId(SystemModelFieldId::Hostname)),
        DumpOptionField::Unit(DumpField::Common(CommonField::Datetime)),
        DumpOptionField::Agg(SystemAggField::Cpu),
        DumpOptionField::Agg(SystemAggField::Mem),
        DumpOptionField::Agg(SystemAggField::Vm),
        DumpOptionField::Unit(DumpField::FieldId(SystemModelFieldId::KernelVersion)),
        DumpOptionField::Unit(DumpField::FieldId(SystemModelFieldId::OsRelease)),
        DumpOptionField::Agg(SystemAggField::Stat),
        DumpOptionField::Unit(DumpField::Common(CommonField::Timestamp)),
    ]
}

pub fn default_system_fields() -> (r: Vec<SystemOptionField>)
    ensures
        r@ == spec_default_system_fields(),
{
    vec![
        DumpOptionField::Unit(DumpField::FieldId(SystemModelFieldId::Hostname)),
        DumpOptionField::Unit(DumpField::Common(CommonField::Datetime)),
        DumpOptionField::Agg(SystemAggField::Cpu),
        DumpOptionField::Agg(SystemAggField::Mem),
        DumpOptionField::Agg(SystemAggField::Vm),
        DumpOptionField::Unit(DumpField::FieldId(SystemModelFieldId::KernelVersion)),
        DumpOptionField::Unit(DumpField::FieldId(SystemModelFieldId::OsRelease)),
        DumpOptionField::Agg(SystemAggField::Stat),
        DumpOptionField::Unit(DumpField::Common(CommonField::Timestamp)),
    ]
}

pub const SYSTEM_ABOUT: &'static str = "Dump system stats";

pub const SYSTEM_EXAMPLES: &'static str =
    "$ below dump system -b \"08:30:00\" -e \"08:30:30\" -f datetime vm hostname -O csv\n\n";

/// The long description of the system command.
pub open spec fn spec_system_long_about() -> Seq<char> {
    spec_long_about::<SystemModelFieldId, SystemAggField>(
        SYSTEM_ABOUT@,
        DETAIL_WIDENS@,
        spec_default_system_fields(),
        SYSTEM_EXAMPLES@,
    )
}

pub fn system_long_about() -> (r: String)
    ensures
        r@ == spec_system_long_about(),
{
    long_about::<SystemModelFieldId, SystemAggField>(
        SYSTEM_ABOUT,
        DETAIL_WIDENS,
        default_system_fields().as_slice(),
        SYSTEM_EXAMPLES,
    )
}

} // verus!
