//! The disk domain: one row per disk or partition.

use crate::catalog::{lemma_all_listed, Catalog, Named};
use crate::field::{names_apart, AggField, CommonField, DumpField, DumpOptionField, FieldId};
use crate::help::{long_about, spec_long_about, DETAIL_NO_EFFECT};
use crate::text::lemma_spell;
use vstd::prelude::*;

verus! {

/// Leaf fields of one disk or partition.
#[derive(Clone, Copy, Debug, PartialEq, Eq, Hash, Structural)]
pub enum SingleDiskModelFieldId {
    Name,
    DiskUsage,
    PartitionSize,
    FilesystemType,
    ReadBytesPerSec,
    WriteBytesPerSec,
    DiscardBytesPerSec,
    DiskTotalBytesPerSec,
    ReadCompleted,
    ReadMerged,
    ReadSectors,
    TimeSpendReadMs,
    WriteCompleted,
    WriteMerged,
    WriteSectors,
    TimeSpendWriteMs,
    DiscardCompleted,
    DiscardMerged,
    DiscardSectors,
    TimeSpendDiscardMs,
    Major,
    Minor,
}

impl Named for SingleDiskModelFieldId {
    open spec fn name(&self) -> Seq<char> {
        match self {
            Self::Name => "name"@,
            Self::DiskUsage => "disk_usage"@,
            Self::PartitionSize => "partition_size"@,
            Self::FilesystemType => "filesystem_type"@,
            Self::ReadBytesPerSec => "read_bytes_per_sec"@,
            Self::WriteBytesPerSec => "write_bytes_per_sec"@,
            Self::DiscardBytesPerSec => "discard_bytes_per_sec"@,
            Self::DiskTotalBytesPerSec => "disk_total_bytes_per_sec"@,
            Self::ReadCompleted => "read_completed"@,
            Self::ReadMerged => "read_merged"@,
            Self::ReadSectors => "read_sectors"@,
            Self::TimeSpendReadMs => "time_spend_read_ms"@,
            Self::WriteCompleted => "write_completed"@,
            Self::WriteMerged => "write_merged"@,
            Self::WriteSectors => "write_sectors"@,
            Self::TimeSpendWriteMs => "time_spend_write_ms"@,
            Self::DiscardCompleted => "discard_completed"@,
            Self::DiscardMerged => "discard_merged"@,
            Self::DiscardSectors => "discard_sectors"@,
            Self::TimeSpendDiscardMs => "time_spend_discard_ms"@,
            Self::Major => "major"@,
            Self::Minor => "minor"@,
        }
    }

    fn to_string(&self) -> String {
        match self {
            Self::Name => "name".to_owned(),
            Self::DiskUsage => "disk_usage".to_owned(),
            Self::PartitionSize => "partition_size".to_owned(),
            Self::FilesystemType => "filesystem_type".to_owned(),
            Self::ReadBytesPerSec => "read_bytes_per_sec".to_owned(),
            Self::WriteBytesPerSec => "write_bytes_per_sec".to_owned(),
            Self::DiscardBytesPerSec => "discard_bytes_per_sec".to_owned(),
            Self::DiskTotalBytesPerSec => "disk_total_bytes_per_sec".to_owned(),
            Self::ReadCompleted => "read_completed".to_owned(),
            Self::ReadMerged => "read_merged".to_owned(),
            Self::ReadSectors => "read_sectors".to_owned(),
            Self::TimeSpendReadMs => "time_spend_read_ms".to_owned(),
            Self::WriteCompleted => "write_completed".to_owned(),
            Self::WriteMerged => "write_merged".to_owned(),
            Self::WriteSectors => "write_sectors".to_owned(),
            Self::TimeSpendWriteMs => "time_spend_write_ms".to_owned(),
            Self::DiscardCompleted => "discard_completed".to_owned(),
            Self::DiscardMerged => "discard_merged".to_owned(),
            Self::DiscardSectors => "discard_sectors".to_owned(),
            Self::TimeSpendDiscardMs => "time_spend_discard_ms".to_owned(),
            Self::Major => "major".to_owned(),
            Self::Minor => "minor".to_owned(),
        }
    }
}

impl Catalog for SingleDiskModelFieldId {
    open spec fn spec_all() -> Seq<Self> {
        seq![
            Self::Name,
            Self::DiskUsage,
            Self::PartitionSize,
            Self::FilesystemType,
            Self::ReadBytesPerSec,
            Self::WriteBytesPerSec,
            Self::DiscardBytesPerSec,
            Self::DiskTotalBytesPerSec,
            Self::ReadCompleted,
            Self::ReadMerged,
            Self::ReadSectors,
            Self::TimeSpendReadMs,
            Self::WriteCompleted,
            Self::WriteMerged,
            Self::WriteSectors,
            Self::TimeSpendWriteMs,
            Self::DiscardCompleted,
            Self::DiscardMerged,
            Self::DiscardSectors,
            Self::TimeSpendDiscardMs,
            Self::Major,
            Self::Minor,
        ]
    }

    fn all() -> Vec<Self> {
        vec![
            Self::Name,
            Self::DiskUsage,
            Self::PartitionSize,
            Self::FilesystemType,
            Self::ReadBytesPerSec,
            Self::WriteBytesPerSec,
            Self::DiscardBytesPerSec,
            Self::DiskTotalBytesPerSec,
            Self::ReadCompleted,
            Self::ReadMerged,
            Self::ReadSectors,
            Self::TimeSpendReadMs,
            Self::WriteCompleted,
            Self::WriteMerged,
            Self::WriteSectors,
            Self::TimeSpendWriteMs,
            Self::DiscardCompleted,
            Self::DiscardMerged,
            Self::DiscardSectors,
            Self::TimeSpendDiscardMs,
            Self::Major,
            Self::Minor,
        ]
    }

    proof fn lemma_listed(self) {
        let all = Self::spec_all();
        match self {
            Self::Name => assert(all[0] == self),
            Self::DiskUsage => assert(all[1] == self),
            Self::PartitionSize => assert(all[2] == self),
            Self::FilesystemType => assert(all[3] == self),
            Self::ReadBytesPerSec => assert(all[4] == self),
            Self::WriteBytesPerSec => assert(all[5] == self),
            Self::DiscardBytesPerSec => assert(all[6] == self),
            Self::DiskTotalBytesPerSec => assert(all[7] == self),
            Self::ReadCompleted => assert(all[8] == self),
            Self::ReadMerged => assert(all[9] == self),
            Self::ReadSectors => assert(all[10] == self),
            Self::TimeSpendReadMs => assert(all[11] == self),
            Self::WriteCompleted => assert(all[12] == self),
            Self::WriteMerged => assert(all[13] == self),
            Self::WriteSectors => assert(all[14] == self),
            Self::TimeSpendWriteMs => assert(all[15] == self),
            Self::DiscardCompleted => assert(all[16] == self),
            Self::DiscardMerged => assert(all[17] == self),
            Self::DiscardSectors => assert(all[18] == self),
            Self::TimeSpendDiscardMs => assert(all[19] == self),
            Self::Major => assert(all[20] == self),
            Self::Minor => assert(all[21] == self),
        }
    }

    proof fn lemma_names(self, other: Self) {
        lemma_spell(self.name());
        lemma_spell(other.name());
        reveal_strlit("name");
        reveal_strlit("disk_usage");
        reveal_strlit("partition_size");
        reveal_strlit("filesystem_type");
        reveal_strlit("read_bytes_per_sec");
        reveal_strlit("write_bytes_per_sec");
        reveal_strlit("discard_bytes_per_sec");
        reveal_strlit("disk_total_bytes_per_sec");
        reveal_strlit("read_completed");
        reveal_strlit("read_merged");
        reveal_strlit("read_sectors");
        reveal_strlit("time_spend_read_ms");
        reveal_strlit("write_completed");
        reveal_strlit("write_merged");
        reveal_strlit("write_sectors");
        reveal_strlit("time_spend_write_ms");
        reveal_strlit("discard_completed");
        reveal_strlit("discard_merged");
        reveal_strlit("discard_sectors");
        reveal_strlit("time_spend_discard_ms");
        reveal_strlit("major");
        reveal_strlit("minor");
    }
}

impl FieldId for SingleDiskModelFieldId {

}

/// Groups of disk fields.
#[derive(Clone, Copy, Debug, PartialEq, Eq, Hash, Structural)]
pub enum DiskAggField {
    Read,
    Write,
    Discard,
    FsInfo,
}

impl Named for DiskAggField {
    open spec fn name(&self) -> Seq<char> {
        match self {
            Self::Read => "read"@,
            Self::Write => "write"@,
            Self::Discard => "discard"@,
            Self::FsInfo => "fs_info"@,
        }
    }

    fn to_string(&self) -> String {
        match self {
            Self::Read => "read".to_owned(),
            Self::Write => "write".to_owned(),
            Self::Discard => "discard".to_owned(),
            Self::FsInfo => "fs_info".to_owned(),
        }
    }
}

impl Catalog for DiskAggField {
    open spec fn spec_all() -> Seq<Self> {
        seq![Self::Read, Self::Write, Self::Discard, Self::FsInfo]
    }

    fn all() -> Vec<Self> {
        vec![Self::Read, Self::Write, Self::Discard, Self::FsInfo]
    }

    proof fn lemma_listed(self) {
        let all = Self::spec_all();
        match self {
            Self::Read => assert(all[0] == self),
            Self::Write => assert(all[1] == self),
            Self::Discard => assert(all[2] == self),
            Self::FsInfo => assert(all[3] == self),
        }
    }

    proof fn lemma_names(self, other: Self) {
        lemma_spell(self.name());
        lemma_spell(other.name());
        reveal_strlit("read");
        reveal_strlit("write");
        reveal_strlit("discard");
        reveal_strlit("fs_info");
    }
}

impl AggField<SingleDiskModelFieldId> for DiskAggField {
    /// The detail flag has no effect in this domain.
    open spec fn spec_expand(&self, detail: bool) -> Seq<SingleDiskModelFieldId> {
        match self {
            Self::Read => seq![
                SingleDiskModelFieldId::ReadBytesPerSec,
                SingleDiskModelFieldId::ReadCompleted,
                SingleDiskModelFieldId::ReadMerged,
                SingleDiskModelFieldId::ReadSectors,
                SingleDiskModelFieldId::TimeSpendReadMs,
            ],
            Self::Write => seq![
                SingleDiskModelFieldId::WriteBytesPerSec,
                SingleDiskModelFieldId::WriteCompleted,
                SingleDiskModelFieldId::WriteMerged,
                SingleDiskModelFieldId::WriteSectors,
                SingleDiskModelFieldId::TimeSpendWriteMs,
            ],
            Self::Discard => seq![
                SingleDiskModelFieldId::DiscardBytesPerSec,
                SingleDiskModelFieldId::DiscardCompleted,
                SingleDiskModelFieldId::DiscardMerged,
                SingleDiskModelFieldId::DiscardSectors,
                SingleDiskModelFieldId::TimeSpendDiscardMs,
            ],
            Self::FsInfo => seq![
                SingleDiskModelFieldId::DiskUsage,
                SingleDiskModelFieldId::PartitionSize,
                SingleDiskModelFieldId::FilesystemType,
            ],
        }
    }

    fn expand(&self, _detail: bool) -> Vec<SingleDiskModelFieldId> {
        let fields = match self {
            Self::Read => vec![
                SingleDiskModelFieldId::ReadBytesPerSec,
                SingleDiskModelFieldId::ReadCompleted,
                SingleDiskModelFieldId::ReadMerged,
                SingleDiskModelFieldId::ReadSectors,
                SingleDiskModelFieldId::TimeSpendReadMs,
            ],
            Self::Write => vec![
                SingleDiskModelFieldId::WriteBytesPerSec,
                SingleDiskModelFieldId::WriteCompleted,
                SingleDiskModelFieldId::WriteMerged,
                SingleDiskModelFieldId::WriteSectors,
                SingleDiskModelFieldId::TimeSpendWriteMs,
            ],
            Self::Discard => vec![
                SingleDiskModelFieldId::DiscardBytesPerSec,
                SingleDiskModelFieldId::DiscardCompleted,
                SingleDiskModelFieldId::DiscardMerged,
                SingleDiskModelFieldId::DiscardSectors,
                SingleDiskModelFieldId::TimeSpendDiscardMs,
            ],
            Self::FsInfo => vec![
                SingleDiskModelFieldId::DiskUsage,
                SingleDiskModelFieldId::PartitionSize,
                SingleDiskModelFieldId::FilesystemType,
            ],
        };
        proof {
            lemma_all_listed(fields@);
        }
        fields
    }
}

/// In the disk domain the detail flag changes no group: the curated
/// selection of every group is its full selection.
pub proof fn lemma_disk_detail_has_no_effect(agg: DiskAggField)
    ensures
        agg.spec_expand(false) == agg.spec_expand(true),
{
}

/// In the disk domain no name stands for two things: the names of the
/// common fields, of the groups and of the leaf fields are all apart.
pub proof fn lemma_disk_names_apart()
    ensures
        names_apart::<SingleDiskModelFieldId, DiskAggField>(),
{
    reveal_strlit("timestamp");
    reveal_strlit("datetime");
    reveal_strlit("read");
    reveal_strlit("write");
    reveal_strlit("discard");
    reveal_strlit("fs_info");
    reveal_strlit("name");
    reveal_strlit("disk_usage");
    reveal_strlit("partition_size");
    reveal_strlit("filesystem_type");
    reveal_strlit("read_bytes_per_sec");
    reveal_strlit("write_bytes_per_sec");
    reveal_strlit("discard_bytes_per_sec");
    reveal_strlit("disk_total_bytes_per_sec");
    reveal_strlit("read_completed");
    reveal_strlit("read_merged");
    reveal_strlit("read_sectors");
    reveal_strlit("time_spend_read_ms");
    reveal_strlit("write_completed");
    reveal_strlit("write_merged");
    reveal_strlit("write_sectors");
    reveal_strlit("time_spend_write_ms");
    reveal_strlit("discard_completed");
    reveal_strlit("discard_merged");
    reveal_strlit("discard_sectors");
    reveal_strlit("time_spend_discard_ms");
    reveal_strlit("major");
    reveal_strlit("minor");
    assert forall|common: CommonField, agg: DiskAggField| common.name() != agg.name() by {
        lemma_spell(common.name());
        lemma_spell(agg.name());
    }
    assert forall|common: CommonField, field: SingleDiskModelFieldId| common.name() != field.name() by {
        lemma_spell(common.name());
        lemma_spell(field.name());
    }
    assert forall|agg: DiskAggField, field: SingleDiskModelFieldId| agg.name() != field.name() by {
        lemma_spell(agg.name());
        lemma_spell(field.name());
    }
}

pub type DiskOptionField = DumpOptionField<SingleDiskModelFieldId, DiskAggField>;

/// The selection that is shown when the user gives none.
pub open spec fn spec_default_disk_fields() -> Seq<DiskOptionField> {
    seq![
        DumpOptionField::Unit(DumpField::Common(CommonField::Datetime)),
        DumpOptionField::Unit(DumpField::FieldId(SingleDiskModelFieldId::Name)),
        DumpOptionField::Unit(DumpField::FieldId(SingleDiskModelFieldId::DiskTotalBytesPerSec)),
        DumpOptionField::Unit(DumpField::FieldId(SingleDiskModelFieldId::Major)),
        DumpOptionField::Unit(DumpField::FieldId(SingleDiskModelFieldId::Minor)),
        DumpOptionField::Agg(DiskAggField::Read),
        DumpOptionField::Agg(DiskAggField::Write),
        DumpOptionField::Agg(DiskAggField::Discard),
        DumpOptionField::Agg(DiskAggField::FsInfo),
        DumpOptionField::Unit(DumpField::Common(CommonField::Timestamp)),
    ]
}

pub fn default_disk_fields() -> (r: Vec<DiskOptionField>)
    ensures
        r@ == spec_default_disk_fields(),
{
    vec![
        DumpOptionField::Unit(DumpField::Common(CommonField::Datetime)),
        DumpOptionField::Unit(DumpField::FieldId(SingleDiskModelFieldId::Name)),
        DumpOptionField::Unit(DumpField::FieldId(SingleDiskModelFieldId::DiskTotalBytesPerSec)),
        DumpOptionField::Unit(DumpField::FieldId(SingleDiskModelFieldId::Major)),
        DumpOptionField::Unit(DumpField::FieldId(SingleDiskModelFieldId::Minor)),
        DumpOptionField::Agg(DiskAggField::Read),
        DumpOptionField::Agg(DiskAggField::Write),
        DumpOptionField::Agg(DiskAggField::Discard),
        DumpOptionField::Agg(DiskAggField::FsInfo),
        DumpOptionField::Unit(DumpField::Common(CommonField::Timestamp)),
    ]
}

pub const DISK_ABOUT: &'static str = "Dump disk stats";

pub const DISK_EXAMPLES: &'static str =
    "Simple example:\n\
     \n\
     $ below dump disk -b \"08:30:00\" -e \"08:30:30\" -f read write discard -O csv\n\
     \n\
     Output stats for all \"nvme0*\" matched disk from 08:30:00 to 08:30:30:\n\
     \n\
     $ below dump disk -b \"08:30:00\" -e \"08:30:30\" -s name -F nvme0* -O json\n\
     \n\
     Output stats for top 5 read partitions for each time slice from 08:30:00 to 08:30:30:\n\
     \n\
     $ below dump disk -b \"08:30:00\" -e \"08:30:30\" -s read_bytes_per_sec --rsort --top 5\n\
     \n";

/// The long description of the disk command.
pub open spec fn spec_disk_long_about() -> Seq<char> {
    spec_long_about::<SingleDiskModelFieldId, DiskAggField>(
        DISK_ABOUT@,
        DETAIL_NO_EFFECT@,
        spec_default_disk_fields(),
        DISK_EXAMPLES@,
    )
}

pub fn disk_long_about() -> (r: String)
    ensures
        r@ == spec_disk_long_about(),
{
    long_about::<SingleDiskModelFieldId, DiskAggField>(
        DISK_ABOUT,
        DETAIL_NO_EFFECT,
        default_disk_fields().as_slice(),
        DISK_EXAMPLES,
    )
}

} // verus!
