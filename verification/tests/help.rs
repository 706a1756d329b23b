use below_dump::btrfs::{btrfs_long_about, BtrfsAggField, BtrfsModelFieldId, BTRFS_ABOUT};
use below_dump::catalog::{parse, Catalog, Named};
use below_dump::cgroup::{cgroup_long_about, CgroupAggField, SingleCgroupModelFieldId};
use below_dump::disk::{disk_long_about, DiskAggField, SingleDiskModelFieldId};
use below_dump::field::{parse_fields, AggField, CommonField, DumpField, DumpOptionField, FieldId};
use below_dump::help::{long_about, DETAIL_NO_EFFECT, DETAIL_WIDENS};
use below_dump::iface::{iface_long_about, IfaceAggField, SingleNetModelFieldId};
use below_dump::network::{
    network_long_about, transport_long_about, NetworkAggField, NetworkModelFieldId,
    TransportAggField,
};
use below_dump::process::{process_long_about, ProcessAggField, SingleProcessModelFieldId};
use below_dump::system::{
    system_long_about, SystemAggField, SystemModelFieldId, SYSTEM_ABOUT, SYSTEM_EXAMPLES,
};

fn names_all<F: Catalog, A: Catalog>(text: &str) {
    for field in CommonField::all() {
        assert!(text.contains(&field.to_string()));
    }
    for field in F::all() {
        assert!(text.contains(&field.to_string()), "{} is missing", field.to_string());
    }
    for group in A::all() {
        assert!(text.contains(&format!("* {}: includes [", group.to_string())));
    }
}

#[test]
fn btrfs_long_about_is_exact() {
    let expected = r#"Dump btrfs Stats

********************** Available fields **********************

timestamp, datetime, name, disk_fraction, disk_bytes

********************** Aggregated fields **********************

* disk_usage: includes [disk_fraction, disk_bytes].

* --detail: no effect.

* --default: includes [datetime, name, disk_usage, timestamp].

* --everything: includes everything (equivalent to --default --detail).

********************** Example Commands **********************

Simple example:

$ below dump btrfs -b "08:30:00" -e "08:30:30" -f disk_usage -O csv

Output stats for top 5 subvolumes for each time slice from 08:30:00 to 08:30:30:

$ below dump btrfs -b "08:30:00" -e "08:30:30" -s disk_bytes --rsort --top 5

"#;
    assert_eq!(btrfs_long_about(), expected);
}

#[test]
fn system_long_about_lists_groups_with_their_curated_fields() {
    let text = system_long_about();
    assert!(text.starts_with("Dump system stats\n\n*****"));
    assert!(text.contains(
        "\n\ntimestamp, datetime, hostname, kernel_version, os_release, stat.total_interrupt_ct, "
    ));
    assert!(text.contains(
        "\n\n* cpu: includes [cpu.usage_pct, cpu.user_pct, cpu.system_pct].\n\n\
         * mem: includes [mem.total, mem.free].\n\n\
         * vm: includes [vm.pgpgin_per_sec, "
    ));
    assert!(text.contains(
        "\n\n* --detail: includes [<agg_field>.*] for each given aggregated field.\n\n\
         * --default: includes [hostname, datetime, cpu, mem, vm, kernel_version, os_release, \
         stat, timestamp].\n\n\
         * --everything: includes everything (equivalent to --default --detail).\n\n"
    ));
    assert!(text.ends_with(
        "********************** Example Commands **********************\n\n\
         $ below dump system -b \"08:30:00\" -e \"08:30:30\" -f datetime vm hostname -O csv\n\n"
    ));
}

#[test]
fn long_about_follows_what_it_is_given() {
    let defaults: Vec<DumpOptionField<BtrfsModelFieldId, BtrfsAggField>> = vec![
        DumpOptionField::Agg(BtrfsAggField::DiskUsage),
        DumpOptionField::Unit(DumpField::FieldId(BtrfsModelFieldId::DiskBytes)),
    ];
    let text = long_about(BTRFS_ABOUT, DETAIL_WIDENS, &defaults, "none\n");
    assert!(text.contains("* --default: includes [disk_usage, disk_bytes].\n\n"));
    assert!(text.contains("* --detail: includes [<agg_field>.*] for each given aggregated field."));
    assert!(text.ends_with("**\n\nnone\n"));
    assert_ne!(text, btrfs_long_about());
    assert_eq!(DETAIL_NO_EFFECT, "no effect.");
    assert_eq!(SYSTEM_ABOUT, "Dump system stats");
    assert!(SYSTEM_EXAMPLES.starts_with("$ below dump system "));
}

#[test]
fn every_long_about_names_every_field_and_group() {
    names_all::<SystemModelFieldId, SystemAggField>(&system_long_about());
    names_all::<SingleDiskModelFieldId, DiskAggField>(&disk_long_about());
    names_all::<BtrfsModelFieldId, BtrfsAggField>(&btrfs_long_about());
    names_all::<SingleProcessModelFieldId, ProcessAggField>(&process_long_about());
    names_all::<SingleCgroupModelFieldId, CgroupAggField>(&cgroup_long_about());
    names_all::<SingleNetModelFieldId, IfaceAggField>(&iface_long_about());
    names_all::<NetworkModelFieldId, NetworkAggField>(&network_long_about());
    names_all::<NetworkModelFieldId, TransportAggField>(&transport_long_about());
}

#[test]
fn long_abouts_say_what_the_detail_flag_does() {
    let widens = "* --detail: includes [<agg_field>.*] for each given aggregated field.\n";
    let no_effect = "* --detail: no effect.\n";
    assert!(system_long_about().contains(widens));
    assert!(process_long_about().contains(widens));
    assert!(cgroup_long_about().contains(widens));
    assert!(disk_long_about().contains(no_effect));
    assert!(btrfs_long_about().contains(no_effect));
    assert!(iface_long_about().contains(no_effect));
    assert!(network_long_about().contains(no_effect));
    assert!(transport_long_about().contains(no_effect));
}

#[test]
fn long_about_is_the_same_each_time() {
    assert_eq!(cgroup_long_about(), cgroup_long_about());
    assert_eq!(transport_long_about(), transport_long_about());
}

fn selection_resolves<F: FieldId, A: AggField<F> + Catalog>(words: &[&str]) {
    let tokens: Vec<String> = words.iter().map(|word| word.to_string()).collect();
    assert!(parse_fields::<F, A>(&tokens).is_ok());
}

#[test]
fn fields_of_the_examples_exist() {
    selection_resolves::<SystemModelFieldId, SystemAggField>(&["datetime", "vm", "hostname"]);
    selection_resolves::<SingleDiskModelFieldId, DiskAggField>(&["read", "write", "discard"]);
    selection_resolves::<BtrfsModelFieldId, BtrfsAggField>(&["disk_usage"]);
    selection_resolves::<SingleProcessModelFieldId, ProcessAggField>(&[
        "comm",
        "cpu",
        "io.rwbytes_per_sec",
    ]);
    selection_resolves::<SingleCgroupModelFieldId, CgroupAggField>(&["name", "cpu"]);
    selection_resolves::<SingleNetModelFieldId, IfaceAggField>(&["interface", "rate"]);
    selection_resolves::<NetworkModelFieldId, NetworkAggField>(&["ip", "ip6"]);
    selection_resolves::<NetworkModelFieldId, TransportAggField>(&["tcp", "udp"]);
    assert!(parse::<SingleDiskModelFieldId>("name").is_ok());
    assert!(parse::<SingleDiskModelFieldId>("read_bytes_per_sec").is_ok());
    assert!(parse::<BtrfsModelFieldId>("disk_bytes").is_ok());
    assert!(parse::<SingleProcessModelFieldId>("comm").is_ok());
    assert!(parse::<SingleProcessModelFieldId>("cpu.usage_pct").is_ok());
    assert!(parse::<SingleCgroupModelFieldId>("name").is_ok());
    assert!(parse::<SingleCgroupModelFieldId>("cpu.usage_pct").is_ok());
    assert!(parse::<SingleNetModelFieldId>("interface").is_ok());
}
