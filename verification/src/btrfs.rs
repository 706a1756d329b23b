//! The btrfs domain: one row per subvolume.

use crate::catalog::{lemma_all_listed, Catalog, Named};
use crate::field::{names_apart, AggField, CommonField, DumpField, DumpOptionField, FieldId};
use crate::help::{long_about, spec_long_about, DETAIL_NO_EFFECT};
use crate::text::lemma_spell;
use vstd::prelude::*;

verus! {

/// Leaf fields of one btrfs subvolume.
#[derive(Clone, Copy, Debug, PartialEq, Eq, Hash, Structural)]
pub enum BtrfsModelFieldId {
    Name,
    DiskFraction,
    DiskBytes,
}

impl Named for BtrfsModelFieldId {
    open spec fn name(&self) -> Seq<char> {
        match self {
            Self::Name => "name"@,
            Self::DiskFraction => "disk_fraction"@,
            Self::DiskBytes => "disk_bytes"@,
        }
    }

    fn to_string(&self) -> String {
        match self {
            Self::Name => "name".to_owned(),
            Self::DiskFraction => "disk_fraction".to_owned(),
            Self::DiskBytes => "disk_bytes".to_owned(),
        }
    }
}

impl Catalog for BtrfsModelFieldId {
    open spec fn spec_all() -> Seq<Self> {
        seq![Self::Name, Self::DiskFraction, Self::DiskBytes]
    }

    fn all() -> Vec<Self> {
        vec![Self::Name, Self::DiskFraction, Self::DiskBytes]
    }

    proof fn lemma_listed(self) {
        let all = Self::spec_all();
        match self {
            Self::Name => assert(all[0] == self),
            Self::DiskFraction => assert(all[1] == self),
            Self::DiskBytes => assert(all[2] == self),
        }
    }

    proof fn lemma_names(self, other: Self) {
        lemma_spell(self.name());
        lemma_spell(other.name());
        reveal_strlit("name");
        reveal_strlit("disk_fraction");
        reveal_strlit("disk_bytes");
    }
}

impl FieldId for BtrfsModelFieldId {

}

/// Groups of btrfs fields.
#[derive(Clone, Copy, Debug, PartialEq, Eq, Hash, Structural)]
pub enum BtrfsAggField {
    DiskUsage,
}

impl Named for BtrfsAggField {
    open spec fn name(&self) -> Seq<char> {
        match self {
            Self::DiskUsage => "disk_usage"@,
        }
    }

    fn to_string(&self) -> String {
        match self {
            Self::DiskUsage => "disk_usage".to_owned(),
        }
    }
}

impl Catalog for BtrfsAggField {
    open spec fn spec_all() -> Seq<Self> {
        seq![Self::DiskUsage]
    }

    fn all() -> Vec<Self> {
        vec![Self::DiskUsage]
    }

    proof fn lemma_listed(self) {
        let all = Self::spec_all();
        match self {
            Self::DiskUsage => assert(all[0] == self),
        }
    }

    proof fn lemma_names(self, other: Self) {
        lemma_spell(self.name());
        lemma_spell(other.name());
        reveal_strlit("disk_usage");
    }
}

impl AggField<BtrfsModelFieldId> for BtrfsAggField {
    /// The detail flag has no effect in this domain.
    open spec fn spec_expand(&self, detail: bool) -> Seq<BtrfsModelFieldId> {
        match self {
            Self::DiskUsage => seq![BtrfsModelFieldId::DiskFraction, BtrfsModelFieldId::DiskBytes],
        }
    }

    fn expand(&self, _detail: bool) -> Vec<BtrfsModelFieldId> {
        let fields = match self {
            Self::DiskUsage => vec![BtrfsModelFieldId::DiskFraction, BtrfsModelFieldId::DiskBytes],
        };
        proof {
            lemma_all_listed(fields@);
        }
        fields
    }
}

/// In the btrfs domain the detail flag changes no group: the curated
/// selection of every group is its full selection.
pub proof fn lemma_btrfs_detail_has_no_effect(agg: BtrfsAggField)
    ensures
        agg.spec_expand(false) == agg.spec_expand(true),
{
}

/// In the btrfs domain no name stands for two things: the names of the
/// common fields, of the groups and of the leaf fields are all apart.
pub proof fn lemma_btrfs_names_apart()
    ensures
        names_apart::<BtrfsModelFieldId, BtrfsAggField>(),
{
    reveal_strlit("timestamp");
    reveal_strlit("datetime");
    reveal_strlit("disk_usage");
    reveal_strlit("name");
    reveal_strlit("disk_fraction");
    reveal_strlit("disk_bytes");
    assert forall|common: CommonField, agg: BtrfsAggField| common.name() != agg.name() by {
        lemma_spell(common.name());
        lemma_spell(agg.name());
    }
    assert forall|common: CommonField, field: BtrfsModelFieldId| common.name() != field.name() by {
        lemma_spell(common.name());
        lemma_spell(field.name());
    }
    assert forall|agg: BtrfsAggField, field: BtrfsModelFieldId| agg.name() != field.name() by {
        lemma_spell(agg.name());
        lemma_spell(field.name());
    }
}

pub type BtrfsOptionField = DumpOptionField<BtrfsModelFieldId, BtrfsAggField>;

/// The selection that is shown when the user gives none.
pub open spec fn spec_default_btrfs_fields() -> Seq<BtrfsOptionField> {
    seq![
        DumpOptionField::Unit(DumpField::Common(CommonField::Datetime)),
        DumpOptionField::Unit(DumpField::FieldId(BtrfsModelFieldId::Name)),
        DumpOptionField::Agg(BtrfsAggField::DiskUsage),
        DumpOptionField::Unit(DumpField::Common(CommonField::Timestamp)),
    ]
}

pub fn default_btrfs_fields() -> (r: Vec<BtrfsOptionField>)
    ensures
        r@ == spec_default_btrfs_fields(),
{
    vec![
        DumpOptionField::Unit(DumpField::Common(CommonField::Datetime)),
        DumpOptionField::Unit(DumpField::FieldId(BtrfsModelFieldId::Name)),
        DumpOptionField::Agg(BtrfsAggField::DiskUsage),
        DumpOptionField::Unit(DumpField::Common(CommonField::Timestamp)),
    ]
}

pub const BTRFS_ABOUT: &'static str = "Dump btrfs Stats";

pub const BTRFS_EXAMPLES: &'static str =
    "Simple example:\n\
     \n\
     $ below dump btrfs -b \"08:30:00\" -e \"08:30:30\" -f disk_usage -O csv\n\
     \n\
     Output stats for top 5 subvolumes for each time slice from 08:30:00 to 08:30:30:\n\
     \n\
     $ below dump btrfs -b \"08:30:00\" -e \"08:30:30\" -s disk_bytes --rsort --top 5\n\
     \n";

/// The long description of the btrfs command.
pub open spec fn spec_btrfs_long_about() -> Seq<char> {
    spec_long_about::<BtrfsModelFieldId, BtrfsAggField>(
        BTRFS_ABOUT@,
        DETAIL_NO_EFFECT@,
        spec_default_btrfs_fields(),
        BTRFS_EXAMPLES@,
    )
}

pub fn btrfs_long_about() -> (r: String)
    ensures
        r@ == spec_btrfs_long_about(),
{
    long_about::<BtrfsModelFieldId, BtrfsAggField>(
        BTRFS_ABOUT,
        DETAIL_NO_EFFECT,
        default_btrfs_fields().as_slice(),
        BTRFS_EXAMPLES,
    )
}

} // verus!
