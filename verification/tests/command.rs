use below_dump::btrfs::{default_btrfs_fields, BtrfsAggField, BtrfsModelFieldId, BtrfsOptionField};
use below_dump::command::{parse_filter, selected_fields, DumpCommand, GeneralOpt, OutputFormat};
use below_dump::error::DumpError;
use below_dump::field::{CommonField, DumpField, DumpOptionField};
use below_dump::system::{
    default_system_fields, MemoryModelFieldId, SystemAggField, SystemModelFieldId,
    SystemOptionField,
};
use below_dump::expand::expand_fields;

fn mem(field: MemoryModelFieldId) -> DumpField<SystemModelFieldId> {
    DumpField::FieldId(SystemModelFieldId::Mem(field))
}

#[test]
fn output_format_is_parsed_in_any_letter_case() {
    assert_eq!(OutputFormat::from_str("raw"), Ok(OutputFormat::Raw));
    assert_eq!(OutputFormat::from_str("csv"), Ok(OutputFormat::Csv));
    assert_eq!(OutputFormat::from_str("CSV"), Ok(OutputFormat::Csv));
    assert_eq!(OutputFormat::from_str("Tsv"), Ok(OutputFormat::Tsv));
    assert_eq!(OutputFormat::from_str("jSoN"), Ok(OutputFormat::Json));
    assert_eq!(OutputFormat::from_str("kv"), Ok(OutputFormat::KeyVal));
    assert_eq!(OutputFormat::from_str("OpenMetrics"), Ok(OutputFormat::OpenMetrics));
    // U+212A KELVIN SIGN has `k` for its lower case.
    assert_eq!(OutputFormat::from_str("\u{212A}V"), Ok(OutputFormat::KeyVal));
}

#[test]
fn unknown_output_format_is_rejected_as_typed() {
    let error = OutputFormat::from_str("XML").unwrap_err();
    assert_eq!(error, DumpError::UnknownOutputFormat("XML".to_owned()));
    assert_eq!(error.message(), "Fail to parse XML");
    assert!(OutputFormat::from_str("").is_err());
    assert!(OutputFormat::from_str("keyval").is_err());
    assert!(OutputFormat::from_str("csv ").is_err());
}

#[test]
fn output_format_name_is_taken_as_written() {
    assert_eq!(OutputFormat::from_name("json"), Some(OutputFormat::Json));
    assert_eq!(OutputFormat::from_name("openmetrics"), Some(OutputFormat::OpenMetrics));
    assert_eq!(OutputFormat::from_name("JSON"), None);
    assert_eq!(OutputFormat::from_name("jso"), None);
    assert_eq!(OutputFormat::from_name("jsonl"), None);
}

#[test]
fn filter_is_compiled() {
    let filter = parse_filter("^nvme0.*$").unwrap();
    assert!(filter.is_match("nvme0n1"));
    assert!(!filter.is_match("sda"));
    assert_eq!(filter.as_str(), "^nvme0.*$");
}

#[test]
fn malformed_filter_is_rejected() {
    let error = parse_filter("foo(bar").unwrap_err();
    assert!(matches!(error, DumpError::InvalidFilter(_)));
    assert!(!error.message().is_empty());
    assert!(error.message().contains("unclosed group"));
}

#[test]
fn general_options_start_with_nothing_set() {
    let opts = GeneralOpt::default();
    assert!(!opts.default && !opts.everything && !opts.detail);
    assert_eq!(opts.begin, "");
    assert!(opts.end.is_none() && opts.duration.is_none() && opts.filter.is_none());
    assert!(!opts.sort && !opts.rsort);
    assert_eq!(opts.top, 0);
    assert!(opts.repeat_title.is_none() && opts.output_format.is_none());
    assert!(opts.output.is_none() && opts.yesterdays.is_none() && opts.br.is_none());
    assert!(!opts.disable_title && !opts.raw);
}

#[test]
fn explicit_selection_is_shown_when_nothing_overrides_it() {
    let fields: Option<Vec<SystemOptionField>> =
        Some(vec![DumpOptionField::Agg(SystemAggField::Mem)]);
    let opts = GeneralOpt::default();
    assert_eq!(
        selected_fields(&opts, &fields, &default_system_fields()),
        vec![mem(MemoryModelFieldId::Total), mem(MemoryModelFieldId::Free)]
    );
    let opts = GeneralOpt { detail: true, ..GeneralOpt::default() };
    assert_eq!(selected_fields(&opts, &fields, &default_system_fields()).len(), 37);
}

#[test]
fn default_selection_is_shown_when_none_is_given() {
    let none: Option<Vec<SystemOptionField>> = None;
    let opts = GeneralOpt::default();
    assert_eq!(
        selected_fields(&opts, &none, &default_system_fields()),
        expand_fields(&default_system_fields(), false)
    );
}

#[test]
fn default_flag_overrides_an_explicit_selection() {
    let fields: Option<Vec<BtrfsOptionField>> =
        Some(vec![DumpOptionField::Unit(DumpField::FieldId(BtrfsModelFieldId::DiskBytes))]);
    let opts = GeneralOpt { default: true, ..GeneralOpt::default() };
    assert_eq!(
        selected_fields(&opts, &fields, &default_btrfs_fields()),
        vec![
            DumpField::Common(CommonField::Datetime),
            DumpField::FieldId(BtrfsModelFieldId::Name),
            DumpField::FieldId(BtrfsModelFieldId::DiskFraction),
            DumpField::FieldId(BtrfsModelFieldId::DiskBytes),
            DumpField::Common(CommonField::Timestamp),
        ]
    );
}

#[test]
fn everything_flag_is_default_with_detail() {
    let fields: Option<Vec<SystemOptionField>> =
        Some(vec![DumpOptionField::Agg(SystemAggField::Mem)]);
    let everything = GeneralOpt { everything: true, ..GeneralOpt::default() };
    let both = GeneralOpt { default: true, detail: true, ..GeneralOpt::default() };
    let expected = expand_fields(&default_system_fields(), true);
    assert_eq!(selected_fields(&everything, &fields, &default_system_fields()), expected);
    assert_eq!(selected_fields(&both, &fields, &default_system_fields()), expected);
    assert_eq!(selected_fields(&everything, &None, &default_system_fields()), expected);
    // 2 single fields, 11 + 37 + 9 of cpu, mem and vm, 2 single fields, 6 of stat, 1 single field
    assert_eq!(expected.len(), 2 + 11 + 37 + 9 + 2 + 6 + 1);
}

#[test]
fn selection_together_with_a_pattern_is_rejected() {
    let command = DumpCommand::Btrfs {
        fields: Some(vec![DumpOptionField::Agg(BtrfsAggField::DiskUsage)]),
        opts: GeneralOpt::default(),
        select: None,
        pattern: Some("mine".to_owned()),
    };
    let error = command.check().unwrap_err();
    assert_eq!(error, DumpError::FieldsWithPattern);
    assert_eq!(error.message(), "--fields cannot be used with --pattern");
}

#[test]
fn selection_or_pattern_alone_is_accepted() {
    let with_fields = DumpCommand::System {
        fields: Some(vec![DumpOptionField::Agg(SystemAggField::Cpu)]),
        opts: GeneralOpt::default(),
        pattern: None,
    };
    assert_eq!(with_fields.check(), Ok(()));
    let with_pattern = DumpCommand::Network {
        fields: None,
        opts: GeneralOpt::default(),
        pattern: Some("mine".to_owned()),
    };
    assert_eq!(with_pattern.check(), Ok(()));
    let with_neither = DumpCommand::Transport {
        fields: None,
        opts: GeneralOpt { everything: true, ..GeneralOpt::default() },
        pattern: None,
    };
    assert_eq!(with_neither.check(), Ok(()));
    let empty_selection = DumpCommand::Disk {
        fields: Some(vec![]),
        opts: GeneralOpt::default(),
        select: None,
        pattern: Some(String::new()),
    };
    assert_eq!(empty_selection.check(), Err(DumpError::FieldsWithPattern));
}
