//! The process domain: one row per process.

use crate::catalog::{
    extend_mapped, lemma_all_listed, lemma_listed_in_concat, lemma_listed_in_image,
    lemma_names_behind, mapped, Catalog, Named,
};
use crate::field::{names_apart, AggField, CommonField, DumpField, DumpOptionField, FieldId};
use crate::help::{long_about, spec_long_about, DETAIL_WIDENS};
use crate::text::lemma_spell;
use vstd::prelude::*;
use vstd::string::StringExecFns;

verus! {

/// What one process reads and writes.
#[derive(Clone, Copy, Debug, PartialEq, Eq, Hash, Structural)]
pub enum ProcessIoModelFieldId {
    RbytesPerSec,
    WbytesPerSec,
    RwbytesPerSec,
}

impl Named for ProcessIoModelFieldId {
    open spec fn name(&self) -> Seq<char> {
        match self {
            Self::RbytesPerSec => "rbytes_per_sec"@,
            Self::WbytesPerSec => "wbytes_per_sec"@,
            Self::RwbytesPerSec => "rwbytes_per_sec"@,
        }
    }

    fn to_string(&self) -> String {
        match self {
            Self::RbytesPerSec => "rbytes_per_sec".to_owned(),
            Self::WbytesPerSec => "wbytes_per_sec".to_owned(),
            Self::RwbytesPerSec => "rwbytes_per_sec".to_owned(),
        }
    }
}

impl Catalog for ProcessIoModelFieldId {
    open spec fn spec_all() -> Seq<Self> {
        seq![Self::RbytesPerSec, Self::WbytesPerSec, Self::RwbytesPerSec]
    }

    fn all() -> Vec<Self> {
        vec![Self::RbytesPerSec, Self::WbytesPerSec, Self::RwbytesPerSec]
    }

    proof fn lemma_listed(self) {
        let all = Self::spec_all();
        match self {
            Self::RbytesPerSec => assert(all[0] == self),
            Self::WbytesPerSec => assert(all[1] == self),
            Self::RwbytesPerSec => assert(all[2] == self),
        }
    }

    proof fn lemma_names(self, other: Self) {
        lemma_spell(self.name());
        lemma_spell(other.name());
        reveal_strlit("rbytes_per_sec");
        reveal_strlit("wbytes_per_sec");
        reveal_strlit("rwbytes_per_sec");
    }
}

/// Memory of one process.
#[derive(Clone, Copy, Debug, PartialEq, Eq, Hash, Structural)]
pub enum ProcessMemoryModelFieldId {
    MinorfaultsPerSec,
    MajorfaultsPerSec,
    RssBytes,
    VmSize,
    Lock,
    Pin,
    Anon,
    File,
    Shmem,
    Pte,
    Swap,
    HugeTlb,
}

impl Named for ProcessMemoryModelFieldId {
    open spec fn name(&self) -> Seq<char> {
        match self {
            Self::MinorfaultsPerSec => "minorfaults_per_sec"@,
            Self::MajorfaultsPerSec => "majorfaults_per_sec"@,
            Self::RssBytes => "rss_bytes"@,
            Self::VmSize => "vm_size"@,
            Self::Lock => "lock"@,
            Self::Pin => "pin"@,
            Self::Anon => "anon"@,
            Self::File => "file"@,
            Self::Shmem => "shmem"@,
            Self::Pte => "pte"@,
            Self::Swap => "swap"@,
            Self::HugeTlb => "huge_tlb"@,
        }
    }

    fn to_string(&self) -> String {
        match self {
            Self::MinorfaultsPerSec => "minorfaults_per_sec".to_owned(),
            Self::MajorfaultsPerSec => "majorfaults_per_sec".to_owned(),
            Self::RssBytes => "rss_bytes".to_owned(),
            Self::VmSize => "vm_size".to_owned(),
            Self::Lock => "lock".to_owned(),
            Self::Pin => "pin".to_owned(),
            Self::Anon => "anon".to_owned(),
            Self::File => "file".to_owned(),
            Self::Shmem => "shmem".to_owned(),
            Self::Pte => "pte".to_owned(),
            Self::Swap => "swap".to_owned(),
            Self::HugeTlb => "huge_tlb".to_owned(),
        }
    }
}

impl Catalog for ProcessMemoryModelFieldId {
    open spec fn spec_all() -> Seq<Self> {
        seq![
            Self::MinorfaultsPerSec,
            Self::MajorfaultsPerSec,
            Self::RssBytes,
            Self::VmSize,
            Self::Lock,
            Self::Pin,
            Self::Anon,
            Self::File,
            Self::Shmem,
            Self::Pte,
            Self::Swap,
            Self::HugeTlb,
        ]
    }

    fn all() -> Vec<Self> {
        vec![
            Self::MinorfaultsPerSec,
            Self::MajorfaultsPerSec,
            Self::RssBytes,
            Self::VmSize,
            Self::Lock,
            Self::Pin,
            Self::Anon,
            Self::File,
            Self::Shmem,
            Self::Pte,
            Self::Swap,
            Self::HugeTlb,
        ]
    }

    proof fn lemma_listed(self) {
        let all = Self::spec_all();
        match self {
            Self::MinorfaultsPerSec => assert(all[0] == self),
            Self::MajorfaultsPerSec => assert(all[1] == self),
            Self::RssBytes => assert(all[2] == self),
            Self::VmSize => assert(all[3] == self),
            Self::Lock => assert(all[4] == self),
            Self::Pin => assert(all[5] == self),
            Self::Anon => assert(all[6] == self),
            Self::File => assert(all[7] == self),
            Self::Shmem => assert(all[8] == self),
            Self::Pte => assert(all[9] == self),
            Self::Swap => assert(all[10] == self),
            Self::HugeTlb => assert(all[11] == self),
        }
    }

    proof fn lemma_names(self, other: Self) {
        lemma_spell(self.name());
        lemma_spell(other.name());
        reveal_strlit("minorfaults_per_sec");
        reveal_strlit("majorfaults_per_sec");
        reveal_strlit("rss_bytes");
        reveal_strlit("vm_size");
        reveal_strlit("lock");
        reveal_strlit("pin");
        reveal_strlit("anon");
        reveal_strlit("file");
        reveal_strlit("shmem");
        reveal_strlit("pte");
        reveal_strlit("swap");
        reveal_strlit("huge_tlb");
    }
}

/// Processor time of one process.
#[derive(Clone, Copy, Debug, PartialEq, Eq, Hash, Structural)]
pub enum ProcessCpuModelFieldId {
    UsagePct,
    UserPct,
    SystemPct,
    NumThreads,
}

impl Named for ProcessCpuModelFieldId {
    open spec fn name(&self) -> Seq<char> {
        match self {
            Self::UsagePct => "usage_pct"@,
            Self::UserPct => "user_pct"@,
            Self::SystemPct => "system_pct"@,
            Self::NumThreads => "num_threads"@,
        }
    }

    fn to_string(&self) -> String {
        match self {
            Self::UsagePct => "usage_pct".to_owned(),
            Self::UserPct => "user_pct".to_owned(),
            Self::SystemPct => "system_pct".to_owned(),
            Self::NumThreads => "num_threads".to_owned(),
        }
    }
}

impl Catalog for ProcessCpuModelFieldId {
    open spec fn spec_all() -> Seq<Self> {
        seq![Self::UsagePct, Self::UserPct, Self::SystemPct, Self::NumThreads]
    }

    fn all() -> Vec<Self> {
        vec![Self::UsagePct, Self::UserPct, Self::SystemPct, Self::NumThreads]
    }

    proof fn lemma_listed(self) {
        let all = Self::spec_all();
        match self {
            Self::UsagePct => assert(all[0] == self),
            Self::UserPct => assert(all[1] == self),
            Self::SystemPct => assert(all[2] == self),
            Self::NumThreads => assert(all[3] == self),
        }
    }

    proof fn lemma_names(self, other: Self) {
        lemma_spell(self.name());
        lemma_spell(other.name());
        reveal_strlit("usage_pct");
        reveal_strlit("user_pct");
        reveal_strlit("system_pct");
        reveal_strlit("num_threads");
    }
}

/// Leaf fields of the process domain.
#[derive(Clone, Copy, Debug, PartialEq, Eq, Hash, Structural)]
pub enum SingleProcessModelFieldId {
    Pid,
    Ppid,
    Comm,
    State,
    UptimeSecs,
    Cgroup,
    Io(ProcessIoModelFieldId),
    Mem(ProcessMemoryModelFieldId),
    Cpu(ProcessCpuModelFieldId),
    Cmdline,
    ExePath,
}

impl Named for SingleProcessModelFieldId {
    open spec fn name(&self) -> Seq<char> {
        match self {
            Self::Pid => "pid"@,
            Self::Ppid => "ppid"@,
            Self::Comm => "comm"@,
            Self::State => "state"@,
            Self::UptimeSecs => "uptime_secs"@,
            Self::Cgroup => "cgroup"@,
            Self::Io(field) => "io."@ + field.name(),
            Self::Mem(field) => "mem."@ + field.name(),
            Self::Cpu(field) => "cpu."@ + field.name(),
            Self::Cmdline => "cmdline"@,
            Self::ExePath => "exe_path"@,
        }
    }

    fn to_string(&self) -> String {
        match self {
            Self::Pid => "pid".to_owned(),
            Self::Ppid => "ppid".to_owned(),
            Self::Comm => "comm".to_owned(),
            Self::State => "state".to_owned(),
            Self::UptimeSecs => "uptime_secs".to_owned(),
            Self::Cgroup => "cgroup".to_owned(),
            Self::Io(field) => "io.".to_owned().concat(field.to_string().as_str()),
            Self::Mem(field) => "mem.".to_owned().concat(field.to_string().as_str()),
            Self::Cpu(field) => "cpu.".to_owned().concat(field.to_string().as_str()),
            Self::Cmdline => "cmdline".to_owned(),
            Self::ExePath => "exe_path".to_owned(),
        }
    }
}

impl Catalog for SingleProcessModelFieldId {
    open spec fn spec_all() -> Seq<Self> {
        seq![
            Self::Pid,
            Self::Ppid,
            Self::Comm,
            Self::State,
            Self::UptimeSecs,
            Self::Cgroup,
        ]
            + ProcessIoModelFieldId::spec_all().map_values(
                |field: ProcessIoModelFieldId| Self::Io(field),
            )
            + ProcessMemoryModelFieldId::spec_all().map_values(
                |field: ProcessMemoryModelFieldId| Self::Mem(field),
            )
            + ProcessCpuModelFieldId::spec_all().map_values(
                |field: ProcessCpuModelFieldId| Self::Cpu(field),
            )
            + seq![Self::Cmdline, Self::ExePath]
    }

    fn all() -> Vec<Self> {
        let mut all = vec![
            Self::Pid,
            Self::Ppid,
            Self::Comm,
            Self::State,
            Self::UptimeSecs,
            Self::Cgroup,
        ];
        extend_mapped(
            &mut all,
            &ProcessIoModelFieldId::all(),
            |field: ProcessIoModelFieldId| -> (wrapped: Self)
                ensures
                    wrapped == Self::Io(field)
                { Self::Io(field) },
            Ghost(|field: ProcessIoModelFieldId| Self::Io(field)),
        );
        extend_mapped(
            &mut all,
            &ProcessMemoryModelFieldId::all(),
            |field: ProcessMemoryModelFieldId| -> (wrapped: Self)
                ensures
                    wrapped == Self::Mem(field)
                { Self::Mem(field) },
            Ghost(|field: ProcessMemoryModelFieldId| Self::Mem(field)),
        );
        extend_mapped(
            &mut all,
            &ProcessCpuModelFieldId::all(),
            |field: ProcessCpuModelFieldId| -> (wrapped: Self)
                ensures
                    wrapped == Self::Cpu(field)
                { Self::Cpu(field) },
            Ghost(|field: ProcessCpuModelFieldId| Self::Cpu(field)),
        );
        all.push(Self::Cmdline);
        all.push(Self::ExePath);
        assert(all@ =~= Self::spec_all());
        all
    }

    proof fn lemma_listed(self) {
        let first = seq![
            Self::Pid,
            Self::Ppid,
            Self::Comm,
            Self::State,
            Self::UptimeSecs,
            Self::Cgroup,
        ];
        let wrap_io = |field: ProcessIoModelFieldId| Self::Io(field);
        let io = ProcessIoModelFieldId::spec_all().map_values(wrap_io);
        let wrap_mem = |field: ProcessMemoryModelFieldId| Self::Mem(field);
        let mem = ProcessMemoryModelFieldId::spec_all().map_values(wrap_mem);
        let wrap_cpu = |field: ProcessCpuModelFieldId| Self::Cpu(field);
        let cpu = ProcessCpuModelFieldId::spec_all().map_values(wrap_cpu);
        let last = seq![Self::Cmdline, Self::ExePath];
        lemma_listed_in_concat(first, io);
        lemma_listed_in_concat(first + io, mem);
        lemma_listed_in_concat(first + io + mem, cpu);
        lemma_listed_in_concat(first + io + mem + cpu, last);
        assert(Self::spec_all() =~= first + io + mem + cpu + last);
        match self {
            Self::Pid => assert(first[0] == self),
            Self::Ppid => assert(first[1] == self),
            Self::Comm => assert(first[2] == self),
            Self::State => assert(first[3] == self),
            Self::UptimeSecs => assert(first[4] == self),
            Self::Cgroup => assert(first[5] == self),
            Self::Io(field) => {
                field.lemma_listed();
                lemma_listed_in_image(ProcessIoModelFieldId::spec_all(), wrap_io);
                assert(wrap_io(field) == self);
            },
            Self::Mem(field) => {
                field.lemma_listed();
                lemma_listed_in_image(ProcessMemoryModelFieldId::spec_all(), wrap_mem);
                assert(wrap_mem(field) == self);
            },
            Self::Cpu(field) => {
                field.lemma_listed();
                lemma_listed_in_image(ProcessCpuModelFieldId::spec_all(), wrap_cpu);
                assert(wrap_cpu(field) == self);
            },
            Self::Cmdline => assert(last[0] == self),
            Self::ExePath => assert(last[1] == self),
        }
    }

    proof fn lemma_names(self, other: Self) {
        lemma_spell(self.name());
        lemma_spell(other.name());
        reveal_strlit("pid");
        reveal_strlit("ppid");
        reveal_strlit("comm");
        reveal_strlit("state");
        reveal_strlit("uptime_secs");
        reveal_strlit("cgroup");
        reveal_strlit("io.");
        reveal_strlit("mem.");
        reveal_strlit("cpu.");
        reveal_strlit("cmdline");
        reveal_strlit("exe_path");
        match self {
            Self::Io(field) => match other {
                Self::Io(other_field) => lemma_names_behind("io."@, field, other_field),
                _ => lemma_names_behind("io."@, field, field),
            },
            Self::Mem(field) => match other {
                Self::Mem(other_field) => lemma_names_behind("mem."@, field, other_field),
                _ => lemma_names_behind("mem."@, field, field),
            },
            Self::Cpu(field) => match other {
                Self::Cpu(other_field) => lemma_names_behind("cpu."@, field, other_field),
                _ => lemma_names_behind("cpu."@, field, field),
            },
            _ => {},
        }
    }
}

impl FieldId for SingleProcessModelFieldId {

}

/// The three sub-models of one process.
#[derive(Clone, Copy, Debug, PartialEq, Eq, Hash, Structural)]
pub enum ProcessAggField {
    Cpu,
    Mem,
    Io,
}

impl Named for ProcessAggField {
    open spec fn name(&self) -> Seq<char> {
        match self {
            Self::Cpu => "cpu"@,
            Self::Mem => "mem"@,
            Self::Io => "io"@,
        }
    }

    fn to_string(&self) -> String {
        match self {
            Self::Cpu => "cpu".to_owned(),
            Self::Mem => "mem".to_owned(),
            Self::Io => "io".to_owned(),
        }
    }
}

impl Catalog for ProcessAggField {
    open spec fn spec_all() -> Seq<Self> {
        seq![Self::Cpu, Self::Mem, Self::Io]
    }

    fn all() -> Vec<Self> {
        vec![Self::Cpu, Self::Mem, Self::Io]
    }

    proof fn lemma_listed(self) {
        let all = Self::spec_all();
        match self {
            Self::Cpu => assert(all[0] == self),
            Self::Mem => assert(all[1] == self),
            Self::Io => assert(all[2] == self),
        }
    }

    proof fn lemma_names(self, other: Self) {
        lemma_spell(self.name());
        lemma_spell(other.name());
        reveal_strlit("cpu");
        reveal_strlit("mem");
        reveal_strlit("io");
    }
}

impl AggField<SingleProcessModelFieldId> for ProcessAggField {
    /// With `detail` every field of the sub-model; otherwise the fields that say
    /// most at a glance.
    open spec fn spec_expand(&self, detail: bool) -> Seq<SingleProcessModelFieldId> {
        if detail {
            match self {
                Self::Cpu => ProcessCpuModelFieldId::spec_all().map_values(
                    |field: ProcessCpuModelFieldId| SingleProcessModelFieldId::Cpu(field),
                ),
                Self::Mem => ProcessMemoryModelFieldId::spec_all().map_values(
                    |field: ProcessMemoryModelFieldId| SingleProcessModelFieldId::Mem(field),
                ),
                Self::Io => ProcessIoModelFieldId::spec_all().map_values(
                    |field: ProcessIoModelFieldId| SingleProcessModelFieldId::Io(field),
                ),
            }
        } else {
            match self {
                Self::Cpu => seq![
                    SingleProcessModelFieldId::Cpu(ProcessCpuModelFieldId::UsagePct),
                ],
                Self::Mem => seq![
                    SingleProcessModelFieldId::Mem(ProcessMemoryModelFieldId::RssBytes),
                ],
                Self::Io => seq![
                    SingleProcessModelFieldId::Io(ProcessIoModelFieldId::RbytesPerSec),
                    SingleProcessModelFieldId::Io(ProcessIoModelFieldId::WbytesPerSec),
                ],
            }
        }
    }

    fn expand(&self, detail: bool) -> Vec<SingleProcessModelFieldId> {
        let fields = if detail {
            match self {
                Self::Cpu => mapped(
                    &ProcessCpuModelFieldId::all(),
                    |field: ProcessCpuModelFieldId| -> (wrapped: SingleProcessModelFieldId)
                        ensures
                            wrapped == SingleProcessModelFieldId::Cpu(field)
                        { SingleProcessModelFieldId::Cpu(field) },
                    Ghost(|field: ProcessCpuModelFieldId| SingleProcessModelFieldId::Cpu(field)),
                ),
                Self::Mem => mapped(
                    &ProcessMemoryModelFieldId::all(),
                    |field: ProcessMemoryModelFieldId| -> (wrapped: SingleProcessModelFieldId)
                        ensures
                            wrapped == SingleProcessModelFieldId::Mem(field)
                        { SingleProcessModelFieldId::Mem(field) },
                    Ghost(
                        |field: ProcessMemoryModelFieldId| SingleProcessModelFieldId::Mem(field),
                    ),
                ),
                Self::Io => mapped(
                    &ProcessIoModelFieldId::all(),
                    |field: ProcessIoModelFieldId| -> (wrapped: SingleProcessModelFieldId)
                        ensures
                            wrapped == SingleProcessModelFieldId::Io(field)
                        { SingleProcessModelFieldId::Io(field) },
                    Ghost(|field: ProcessIoModelFieldId| SingleProcessModelFieldId::Io(field)),
                ),
            }
        } else {
            match self {
                Self::Cpu => vec![
                    SingleProcessModelFieldId::Cpu(ProcessCpuModelFieldId::UsagePct),
                ],
                Self::Mem => vec![
                    SingleProcessModelFieldId::Mem(ProcessMemoryModelFieldId::RssBytes),
                ],
                Self::Io => vec![
                    SingleProcessModelFieldId::Io(ProcessIoModelFieldId::RbytesPerSec),
                    SingleProcessModelFieldId::Io(ProcessIoModelFieldId::WbytesPerSec),
                ],
            }
        };
        proof {
            lemma_all_listed(fields@);
        }
        fields
    }
}

/// In the process domain the curated selection of every group is part of its
/// full selection.
pub proof fn lemma_process_detail_widens(agg: ProcessAggField, field: SingleProcessModelFieldId)
    requires
        agg.spec_expand(false).contains(field),
    ensures
        agg.spec_expand(true).contains(field),
{
    let curated = agg.spec_expand(false);
    let k = choose|k: int| 0 <= k < curated.len() && curated[k] == field;
    match agg {
        ProcessAggField::Cpu => {
            let wrap = |field: ProcessCpuModelFieldId| SingleProcessModelFieldId::Cpu(field);
            ProcessCpuModelFieldId::UsagePct.lemma_listed();
            lemma_listed_in_image(ProcessCpuModelFieldId::spec_all(), wrap);
            assert(wrap(ProcessCpuModelFieldId::UsagePct) == curated[0]);
        },
        ProcessAggField::Mem => {
            let wrap = |field: ProcessMemoryModelFieldId| SingleProcessModelFieldId::Mem(field);
            ProcessMemoryModelFieldId::RssBytes.lemma_listed();
            lemma_listed_in_image(ProcessMemoryModelFieldId::spec_all(), wrap);
            assert(wrap(ProcessMemoryModelFieldId::RssBytes) == curated[0]);
        },
        ProcessAggField::Io => {
            let wrap = |field: ProcessIoModelFieldId| SingleProcessModelFieldId::Io(field);
            ProcessIoModelFieldId::RbytesPerSec.lemma_listed();
            ProcessIoModelFieldId::WbytesPerSec.lemma_listed();
            lemma_listed_in_image(ProcessIoModelFieldId::spec_all(), wrap);
            assert(wrap(ProcessIoModelFieldId::RbytesPerSec) == curated[0]);
            assert(wrap(ProcessIoModelFieldId::WbytesPerSec) == curated[1]);
        },
    }
}

/// In the process domain no name stands for two things: the names of the
/// common fields, of the groups and of the leaf fields are all apart.
pub proof fn lemma_process_names_apart()
    ensures
        names_apart::<SingleProcessModelFieldId, ProcessAggField>(),
{
    reveal_strlit("timestamp");
    reveal_strlit("datetime");
    reveal_strlit("cpu");
    reveal_strlit("mem");
    reveal_strlit("io");
    reveal_strlit("pid");
    reveal_strlit("ppid");
    reveal_strlit("comm");
    reveal_strlit("state");
    reveal_strlit("uptime_secs");
    reveal_strlit("cgroup");
    reveal_strlit("io.");
    reveal_strlit("mem.");
    reveal_strlit("cpu.");
    reveal_strlit("cmdline");
    reveal_strlit("exe_path");
    assert forall|common: CommonField, agg: ProcessAggField| common.name() != agg.name() by {
        lemma_spell(common.name());
        lemma_spell(agg.name());
    }
    assert forall|common: CommonField, field: SingleProcessModelFieldId| common.name() != field.name() by {
        lemma_spell(common.name());
        lemma_spell(field.name());
    }
    assert forall|agg: ProcessAggField, field: SingleProcessModelFieldId| agg.name() != field.name() by {
        lemma_spell(agg.name());
        lemma_spell(field.name());
    }
}

pub type ProcessOptionField = DumpOptionField<SingleProcessModelFieldId, ProcessAggField>;

/// The selection that is shown when the user gives none.
pub open spec fn spec_default_process_fields() -> Seq<ProcessOptionField> {
    seq![
        DumpOptionField::Unit(DumpField::Common(CommonField::Datetime)),
        DumpOptionField::Unit(DumpField::FieldId(SingleProcessModelFieldId::Pid)),
        DumpOptionField::Unit(DumpField::FieldId(SingleProcessModelFieldId::Ppid)),
        DumpOptionField::Unit(DumpField::FieldId(SingleProcessModelFieldId::Comm)),
        DumpOptionField::Unit(DumpField::FieldId(SingleProcessModelFieldId::State)),
        DumpOptionField::Agg(ProcessAggField::Cpu),
        DumpOptionField::Agg(ProcessAggField::Mem),
        DumpOptionField::Agg(ProcessAggField::Io),
        DumpOptionField::Unit(DumpField::FieldId(SingleProcessModelFieldId::UptimeSecs)),
        DumpOptionField::Unit(DumpField::FieldId(SingleProcessModelFieldId::Cgroup)),
        DumpOptionField::Unit(DumpField::Common(CommonField::Timestamp)),
        DumpOptionField::Unit(DumpField::FieldId(SingleProcessModelFieldId::Cmdline)),
        DumpOptionField::Unit(DumpField::FieldId(SingleProcessModelFieldId::ExePath)),
    ]
}

pub fn default_process_fields() -> (r: Vec<ProcessOptionField>)
    ensures
        r@ == spec_default_process_fields(),
{
    vec![
        DumpOptionField::Unit(DumpField::Common(CommonField::Datetime)),
        DumpOptionField::Unit(DumpField::FieldId(SingleProcessModelFieldId::Pid)),
        DumpOptionField::Unit(DumpField::FieldId(SingleProcessModelFieldId::Ppid)),
        DumpOptionField::Unit(DumpField::FieldId(SingleProcessModelFieldId::Comm)),
        DumpOptionField::Unit(DumpField::FieldId(SingleProcessModelFieldId::State)),
        DumpOptionField::Agg(ProcessAggField::Cpu),
        DumpOptionField::Agg(ProcessAggField::Mem),
        DumpOptionField::Agg(ProcessAggField::Io),
        DumpOptionField::Unit(DumpField::FieldId(SingleProcessModelFieldId::UptimeSecs)),
        DumpOptionField::Unit(DumpField::FieldId(SingleProcessModelFieldId::Cgroup)),
        DumpOptionField::Unit(DumpField::Common(CommonField::Timestamp)),
        DumpOptionField::Unit(DumpField::FieldId(SingleProcessModelFieldId::Cmdline)),
        DumpOptionField::Unit(DumpField::FieldId(SingleProcessModelFieldId::ExePath)),
    ]
}

pub const PROCESS_ABOUT: &'static str = "Dump process stats";

pub const PROCESS_EXAMPLES: &'static str =
    "Simple example:\n\
     \n\
     $ below dump process -b \"08:30:00\" -e \"08:30:30\" -f comm cpu io.rwbytes_per_sec -O csv\n\
     \n\
     Output stats for all \"below*\" matched processes from 08:30:00 to 08:30:30:\n\
     \n\
     $ below dump process -b \"08:30:00\" -e \"08:30:30\" -s comm -F below* -O json\n\
     \n\
     Output stats for top 5 CPU intense processes for each time slice from 08:30:00 to 08:30:30:\n\
     \n\
     $ below dump process -b \"08:30:00\" -e \"08:30:30\" -s cpu.usage_pct --rsort --top 5\n\
     \n";

/// The long description of the process command.
pub open spec fn spec_process_long_about() -> Seq<char> {
    spec_long_about::<SingleProcessModelFieldId, ProcessAggField>(
        PROCESS_ABOUT@,
        DETAIL_WIDENS@,
        spec_default_process_fields(),
        PROCESS_EXAMPLES@,
    )
}

pub fn process_long_about() -> (r: String)
    ensures
        r@ == spec_process_long_about(),
{
    long_about::<SingleProcessModelFieldId, ProcessAggField>(
        PROCESS_ABOUT,
        DETAIL_WIDENS,
        default_process_fields().as_slice(),
        PROCESS_EXAMPLES,
    )
}

} // verus!
