use below_dump::catalog::{Catalog, Named};
use below_dump::error::DumpError;
use below_dump::expand::{expand_fields, join};
use below_dump::field::{parse_fields, AggField, CommonField, DumpField, DumpOptionField};
use below_dump::system::{
    default_system_fields, MemoryModelFieldId, ProcStatModelFieldId, SingleCpuModelFieldId,
    SystemAggField, SystemModelFieldId, SystemOptionField, VmModelFieldId,
};

fn tokens(words: &[&str]) -> Vec<String> {
    words.iter().map(|word| word.to_string()).collect()
}

fn names(fields: &[DumpField<SystemModelFieldId>]) -> Vec<String> {
    fields.iter().map(|field| field.to_string()).collect()
}

fn cpu(field: SingleCpuModelFieldId) -> DumpField<SystemModelFieldId> {
    DumpField::FieldId(SystemModelFieldId::Cpu(field))
}

#[test]
fn system_selection_with_curated_cpu() {
    let fields: Vec<SystemOptionField> =
        parse_fields(&tokens(&["datetime", "cpu", "hostname"])).unwrap();
    let columns = expand_fields(&fields, false);
    assert_eq!(
        columns,
        vec![
            DumpField::Common(CommonField::Datetime),
            cpu(SingleCpuModelFieldId::UsagePct),
            cpu(SingleCpuModelFieldId::UserPct),
            cpu(SingleCpuModelFieldId::SystemPct),
            DumpField::FieldId(SystemModelFieldId::Hostname),
        ]
    );
    assert_eq!(
        names(&columns),
        vec!["datetime", "cpu.usage_pct", "cpu.user_pct", "cpu.system_pct", "hostname"]
    );
}

#[test]
fn system_mem_in_detail_is_every_memory_field() {
    let fields: Vec<SystemOptionField> = parse_fields(&tokens(&["mem"])).unwrap();
    let columns = expand_fields(&fields, true);
    let expected: Vec<DumpField<SystemModelFieldId>> = MemoryModelFieldId::all()
        .into_iter()
        .map(|field| DumpField::FieldId(SystemModelFieldId::Mem(field)))
        .collect();
    assert_eq!(columns, expected);
    assert_eq!(columns.len(), 37);
    assert_eq!(columns[0].to_string(), "mem.total");
    assert_eq!(columns[1].to_string(), "mem.free");
    assert_eq!(columns[36].to_string(), "mem.direct_map_1g");
}

#[test]
fn unknown_token_rejects_the_whole_selection() {
    let result: Result<Vec<SystemOptionField>, DumpError> =
        parse_fields(&tokens(&["bogus_field"]));
    let error = result.unwrap_err();
    assert_eq!(error, DumpError::UnrecognizedField("bogus_field".to_owned()));
    assert_eq!(error.message(), "unrecognized field: bogus_field");
}

#[test]
fn first_unknown_token_is_the_one_reported() {
    let result: Result<Vec<SystemOptionField>, DumpError> =
        parse_fields(&tokens(&["datetime", "nope", "cpu", "neither"]));
    assert_eq!(result, Err(DumpError::UnrecognizedField("nope".to_owned())));
}

#[test]
fn empty_selection_parses_and_expands_to_nothing() {
    let fields: Vec<SystemOptionField> = parse_fields(&[]).unwrap();
    assert!(fields.is_empty());
    assert!(expand_fields(&fields, false).is_empty());
    assert!(expand_fields(&fields, true).is_empty());
}

#[test]
fn expansion_keeps_the_order_of_the_selection() {
    let before = DumpField::FieldId(SystemModelFieldId::OsRelease);
    let after = DumpField::Common(CommonField::Timestamp);
    let selection: Vec<SystemOptionField> = vec![
        DumpOptionField::Unit(before),
        DumpOptionField::Agg(SystemAggField::Mem),
        DumpOptionField::Unit(after),
    ];
    assert_eq!(
        expand_fields(&selection, false),
        vec![
            before,
            DumpField::FieldId(SystemModelFieldId::Mem(MemoryModelFieldId::Total)),
            DumpField::FieldId(SystemModelFieldId::Mem(MemoryModelFieldId::Free)),
            after,
        ]
    );
}

#[test]
fn expansion_keeps_duplicates() {
    let selection: Vec<SystemOptionField> = vec![
        DumpOptionField::Agg(SystemAggField::Mem),
        DumpOptionField::Agg(SystemAggField::Mem),
        DumpOptionField::Unit(DumpField::FieldId(SystemModelFieldId::Hostname)),
        DumpOptionField::Unit(DumpField::FieldId(SystemModelFieldId::Hostname)),
    ];
    let total = DumpField::FieldId(SystemModelFieldId::Mem(MemoryModelFieldId::Total));
    let free = DumpField::FieldId(SystemModelFieldId::Mem(MemoryModelFieldId::Free));
    let hostname = DumpField::FieldId(SystemModelFieldId::Hostname);
    assert_eq!(
        expand_fields(&selection, false),
        vec![total, free, total, free, hostname, hostname]
    );
}

#[test]
fn expansion_of_two_selections_is_the_two_expansions() {
    let first: Vec<SystemOptionField> = parse_fields(&tokens(&["vm", "hostname"])).unwrap();
    let second: Vec<SystemOptionField> = parse_fields(&tokens(&["stat", "cpu"])).unwrap();
    let mut both = first.clone();
    both.extend(second.iter().copied());
    let mut expected = expand_fields(&first, true);
    expected.extend(expand_fields(&second, true));
    assert_eq!(expand_fields(&both, true), expected);
}

#[test]
fn system_cpu_in_detail_leaves_out_the_index() {
    let expanded = SystemAggField::Cpu.expand(true);
    let all = SingleCpuModelFieldId::all();
    assert_eq!(all[0], SingleCpuModelFieldId::Idx);
    let expected: Vec<SystemModelFieldId> =
        all[1..].iter().map(|field| SystemModelFieldId::Cpu(*field)).collect();
    assert_eq!(expanded, expected);
    assert_eq!(expanded.len(), 11);
    assert!(!expanded.contains(&SystemModelFieldId::Cpu(SingleCpuModelFieldId::Idx)));
}

#[test]
fn system_groups_expand_as_documented() {
    assert_eq!(
        SystemAggField::Cpu.expand(false),
        vec![
            SystemModelFieldId::Cpu(SingleCpuModelFieldId::UsagePct),
            SystemModelFieldId::Cpu(SingleCpuModelFieldId::UserPct),
            SystemModelFieldId::Cpu(SingleCpuModelFieldId::SystemPct),
        ]
    );
    assert_eq!(
        SystemAggField::Mem.expand(false),
        vec![
            SystemModelFieldId::Mem(MemoryModelFieldId::Total),
            SystemModelFieldId::Mem(MemoryModelFieldId::Free),
        ]
    );
    let vm: Vec<SystemModelFieldId> =
        VmModelFieldId::all().into_iter().map(SystemModelFieldId::Vm).collect();
    assert_eq!(SystemAggField::Vm.expand(false), vm);
    assert_eq!(SystemAggField::Vm.expand(true), vm);
    let stat: Vec<SystemModelFieldId> =
        ProcStatModelFieldId::all().into_iter().map(SystemModelFieldId::Stat).collect();
    assert_eq!(SystemAggField::Stat.expand(false), stat);
    assert_eq!(SystemAggField::Stat.expand(true), stat);
}

#[test]
fn default_system_selection_expands_in_order() {
    let columns = expand_fields(&default_system_fields(), false);
    let shown = names(&columns);
    assert_eq!(shown[0], "hostname");
    assert_eq!(shown[1], "datetime");
    assert_eq!(shown[2], "cpu.usage_pct");
    assert_eq!(shown[5], "mem.total");
    assert_eq!(shown[7], "vm.pgpgin_per_sec");
    assert_eq!(shown[shown.len() - 1], "timestamp");
    // 2 single fields, 3 + 2 + 9 of cpu, mem and vm, 2 single fields, 6 of stat, 1 single field
    assert_eq!(shown.len(), 2 + 3 + 2 + 9 + 2 + 6 + 1);
}

#[test]
fn join_separates_names_with_comma_and_space() {
    let none: Vec<CommonField> = vec![];
    assert_eq!(join(&none), "");
    assert_eq!(join(&[CommonField::Datetime]), "datetime");
    assert_eq!(join(&CommonField::all()), "timestamp, datetime");
    assert_eq!(
        join(&SystemAggField::Cpu.expand(false)),
        "cpu.usage_pct, cpu.user_pct, cpu.system_pct"
    );
    assert_eq!(
        join(&default_system_fields()),
        "hostname, datetime, cpu, mem, vm, kernel_version, os_release, stat, timestamp"
    );
}
