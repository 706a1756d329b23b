use below_dump::catalog::{lookup, parse, Catalog, Named};
use below_dump::error::DumpError;
use below_dump::field::{AggField, CommonField, DumpField, DumpOptionField, FieldId};
use below_dump::system::{
    MemoryModelFieldId, SingleCpuModelFieldId, SystemAggField, SystemModelFieldId,
    SystemOptionField,
};

// The two sets below collide in their names with each other and with the
// common fields. Their ghost items exist for verification alone and are never
// called.

/// A leaf field set whose names collide with a common field and with a group.
#[derive(Clone, Copy, Debug, PartialEq, Eq)]
enum ShadowedField {
    Datetime,
    Both,
    Own,
}

impl Named for ShadowedField {
    fn name(&self) -> vstd::seq::Seq<char> {
        unreachable!()
    }

    fn to_string(&self) -> String {
        match self {
            ShadowedField::Datetime => "datetime".to_owned(),
            ShadowedField::Both => "both".to_owned(),
            ShadowedField::Own => "own".to_owned(),
        }
    }
}

impl Catalog for ShadowedField {
    fn spec_all() -> vstd::seq::Seq<Self> {
        unreachable!()
    }

    fn lemma_listed(self) {}

    fn lemma_names(self, _other: Self) {}

    fn all() -> Vec<Self> {
        vec![ShadowedField::Datetime, ShadowedField::Both, ShadowedField::Own]
    }
}

impl FieldId for ShadowedField {}

/// A group set whose names collide with a common field and with a leaf field.
#[derive(Clone, Copy, Debug, PartialEq, Eq)]
enum ShadowedGroup {
    Timestamp,
    Both,
}

impl Named for ShadowedGroup {
    fn name(&self) -> vstd::seq::Seq<char> {
        unreachable!()
    }

    fn to_string(&self) -> String {
        match self {
            ShadowedGroup::Timestamp => "timestamp".to_owned(),
            ShadowedGroup::Both => "both".to_owned(),
        }
    }
}

impl Catalog for ShadowedGroup {
    fn spec_all() -> vstd::seq::Seq<Self> {
        unreachable!()
    }

    fn lemma_listed(self) {}

    fn lemma_names(self, _other: Self) {}

    fn all() -> Vec<Self> {
        vec![ShadowedGroup::Timestamp, ShadowedGroup::Both]
    }
}

impl AggField<ShadowedField> for ShadowedGroup {
    fn spec_expand(&self, _detail: bool) -> vstd::seq::Seq<ShadowedField> {
        unreachable!()
    }

    fn expand(&self, _detail: bool) -> Vec<ShadowedField> {
        vec![ShadowedField::Own]
    }
}

type Shadowed = DumpOptionField<ShadowedField, ShadowedGroup>;

#[test]
fn common_field_shadows_leaf_field() {
    assert_eq!(
        Shadowed::from_str("datetime"),
        Ok(DumpOptionField::Unit(DumpField::Common(CommonField::Datetime)))
    );
}

#[test]
fn common_field_shadows_group() {
    assert_eq!(
        Shadowed::from_str("timestamp"),
        Ok(DumpOptionField::Unit(DumpField::Common(CommonField::Timestamp)))
    );
}

#[test]
fn group_shadows_leaf_field() {
    assert_eq!(Shadowed::from_str("both"), Ok(DumpOptionField::Agg(ShadowedGroup::Both)));
}

#[test]
fn leaf_field_resolves_when_nothing_shadows_it() {
    assert_eq!(
        Shadowed::from_str("own"),
        Ok(DumpOptionField::Unit(DumpField::FieldId(ShadowedField::Own)))
    );
}

#[test]
fn common_fields_parse_and_render() {
    assert_eq!(CommonField::all(), vec![CommonField::Timestamp, CommonField::Datetime]);
    assert_eq!(CommonField::Timestamp.to_string(), "timestamp");
    assert_eq!(CommonField::Datetime.to_string(), "datetime");
    assert_eq!(lookup::<CommonField>("datetime"), Some(CommonField::Datetime));
    assert_eq!(lookup::<CommonField>("TimeStamp"), Some(CommonField::Timestamp));
    assert_eq!(lookup::<CommonField>("date_time"), None);
    assert_eq!(lookup::<CommonField>(""), None);
}

#[test]
fn token_case_is_ignored() {
    let expected = Ok(DumpOptionField::Agg(SystemAggField::Cpu));
    assert_eq!(SystemOptionField::from_str("cpu"), expected);
    assert_eq!(SystemOptionField::from_str("CPU"), expected);
    assert_eq!(SystemOptionField::from_str("Cpu"), expected);
    assert_eq!(
        SystemOptionField::from_str("CPU.Usage_Pct"),
        Ok(DumpOptionField::Unit(DumpField::FieldId(SystemModelFieldId::Cpu(
            SingleCpuModelFieldId::UsagePct
        ))))
    );
}

#[test]
fn only_ascii_letters_are_folded() {
    // U+212A KELVIN SIGN is no ASCII letter, so it does not stand for `k`.
    assert_eq!(lookup::<SystemModelFieldId>("\u{212A}ernel_version"), None);
    assert_eq!(
        lookup::<SystemModelFieldId>("Kernel_Version"),
        Some(SystemModelFieldId::KernelVersion)
    );
}

#[test]
fn nested_leaf_fields_carry_the_name_of_their_sub_model() {
    assert_eq!(SystemModelFieldId::Hostname.to_string(), "hostname");
    assert_eq!(
        SystemModelFieldId::Cpu(SingleCpuModelFieldId::UsagePct).to_string(),
        "cpu.usage_pct"
    );
    assert_eq!(
        SystemModelFieldId::Mem(MemoryModelFieldId::DirectMap4k).to_string(),
        "mem.direct_map_4k"
    );
    assert_eq!(
        lookup::<SystemModelFieldId>("mem.free"),
        Some(SystemModelFieldId::Mem(MemoryModelFieldId::Free))
    );
    assert_eq!(lookup::<SystemModelFieldId>("mem."), None);
    assert_eq!(lookup::<SystemModelFieldId>("free"), None);
}

#[test]
fn group_renders_under_its_own_name() {
    let cpu: SystemOptionField = DumpOptionField::Agg(SystemAggField::Cpu);
    assert_eq!(cpu.to_string(), "cpu");
    let datetime: SystemOptionField =
        DumpOptionField::Unit(DumpField::Common(CommonField::Datetime));
    assert_eq!(datetime.to_string(), "datetime");
    let hostname: SystemOptionField =
        DumpOptionField::Unit(DumpField::FieldId(SystemModelFieldId::Hostname));
    assert_eq!(hostname.to_string(), "hostname");
}

#[test]
fn unknown_token_is_rejected() {
    let error = SystemOptionField::from_str("bogus_field").unwrap_err();
    assert_eq!(error, DumpError::UnrecognizedField("bogus_field".to_owned()));
    assert_eq!(error.message(), "unrecognized field: bogus_field");
}

#[test]
fn rejected_token_is_reported_as_typed() {
    let error = SystemOptionField::from_str("Bogus.Field").unwrap_err();
    assert_eq!(error.message(), "unrecognized field: Bogus.Field");
}

#[test]
fn leaf_field_is_parsed_or_reported_missing() {
    assert_eq!(parse::<SystemModelFieldId>("OS_Release"), Ok(SystemModelFieldId::OsRelease));
    assert_eq!(
        parse::<SystemModelFieldId>("cpu.idx"),
        Ok(SystemModelFieldId::Cpu(SingleCpuModelFieldId::Idx))
    );
    // A group or a common field is no leaf field.
    let error = parse::<SystemModelFieldId>("cpu").unwrap_err();
    assert_eq!(error, DumpError::NoSuchField("cpu".to_owned()));
    assert_eq!(error.message(), "no such field: cpu");
    assert_eq!(
        parse::<SystemModelFieldId>("Datetime"),
        Err(DumpError::NoSuchField("Datetime".to_owned()))
    );
}
