use below_dump::btrfs::{default_btrfs_fields, BtrfsAggField, BtrfsModelFieldId};
use below_dump::catalog::{lookup, Catalog, Named};
use below_dump::cgroup::{
    default_cgroup_fields, CgroupAggField, CgroupCpuModelFieldId, CgroupIoModelFieldId,
    CgroupMemoryModelFieldId, CgroupPressureModelFieldId, SingleCgroupModelFieldId,
};
use below_dump::disk::{default_disk_fields, DiskAggField, SingleDiskModelFieldId};
use below_dump::expand::{expand_fields, join};
use below_dump::field::{AggField, CommonField, DumpField, DumpOptionField, FieldId};
use below_dump::iface::{default_iface_fields, IfaceAggField, SingleNetModelFieldId};
use below_dump::network::{
    default_network_fields, default_transport_fields, Icmp6ModelFieldId, IcmpModelFieldId,
    Ip6ModelFieldId, IpModelFieldId, NetworkAggField, NetworkModelFieldId, TcpModelFieldId,
    TransportAggField, Udp6ModelFieldId, UdpModelFieldId,
};
use below_dump::process::{
    default_process_fields, ProcessAggField, ProcessCpuModelFieldId, ProcessIoModelFieldId,
    ProcessMemoryModelFieldId, SingleProcessModelFieldId,
};
use below_dump::system::{SystemAggField, SystemModelFieldId};

/// Every identifier renders to a lower-case name that parses back to it, in
/// any letter case, and no two identifiers share a name.
fn round_trips<T: Catalog + PartialEq + std::fmt::Debug>(expected_len: usize) {
    let all = T::all();
    assert_eq!(all.len(), expected_len);
    for item in &all {
        let name = item.to_string();
        assert!(!name.is_empty());
        assert_eq!(name, name.to_ascii_lowercase());
        assert_eq!(lookup::<T>(&name), Some(*item));
        assert_eq!(lookup::<T>(&name.to_ascii_uppercase()), Some(*item));
        let again = lookup::<T>(&name).unwrap().to_string();
        assert_eq!(again, name);
    }
}

/// Every group expands, curated and in detail, to a non-empty list of leaf
/// fields of the domain. When `widens`, the curated list is part of the full
/// one; otherwise the two are the same.
fn expands_within<F, A>(widens: bool)
where
    F: FieldId + PartialEq + std::fmt::Debug,
    A: AggField<F> + Catalog,
{
    let every = F::all();
    for group in A::all() {
        let curated = group.expand(false);
        let full = group.expand(true);
        assert!(!curated.is_empty());
        assert!(!full.is_empty());
        for field in curated.iter().chain(full.iter()) {
            assert!(every.contains(field));
        }
        for field in &curated {
            assert!(full.contains(field));
        }
        if !widens {
            assert_eq!(curated, full);
        }
        assert_eq!(group.expand(false), curated);
        assert_eq!(group.expand(true), full);
    }
}

/// Every common field, group and leaf field of a domain resolves from its own
/// name to itself: no name of the domain is shadowed.
fn resolves_to_itself<F, A>()
where
    F: FieldId + PartialEq + std::fmt::Debug,
    A: AggField<F> + Catalog + PartialEq + std::fmt::Debug,
{
    for common in CommonField::all() {
        let option: DumpOptionField<F, A> = DumpOptionField::Unit(DumpField::Common(common));
        assert_eq!(DumpOptionField::from_str(&option.to_string()), Ok(option));
    }
    for group in A::all() {
        let option: DumpOptionField<F, A> = DumpOptionField::Agg(group);
        assert_eq!(DumpOptionField::from_str(&option.to_string()), Ok(option));
        assert_eq!(
            DumpOptionField::from_str(&option.to_string().to_ascii_uppercase()),
            Ok(option)
        );
    }
    for field in F::all() {
        let option: DumpOptionField<F, A> = DumpOptionField::Unit(DumpField::FieldId(field));
        assert_eq!(DumpOptionField::from_str(&option.to_string()), Ok(option));
    }
}

#[test]
fn no_name_of_a_domain_is_shadowed() {
    resolves_to_itself::<SystemModelFieldId, SystemAggField>();
    resolves_to_itself::<SingleDiskModelFieldId, DiskAggField>();
    resolves_to_itself::<BtrfsModelFieldId, BtrfsAggField>();
    resolves_to_itself::<SingleProcessModelFieldId, ProcessAggField>();
    resolves_to_itself::<SingleCgroupModelFieldId, CgroupAggField>();
    resolves_to_itself::<SingleNetModelFieldId, IfaceAggField>();
    resolves_to_itself::<NetworkModelFieldId, NetworkAggField>();
    resolves_to_itself::<NetworkModelFieldId, TransportAggField>();
}

#[test]
fn system_catalogs_round_trip() {
    round_trips::<SystemModelFieldId>(3 + 6 + 12 + 37 + 9);
    round_trips::<SystemAggField>(4);
    round_trips::<CommonField>(2);
}

#[test]
fn disk_catalogs_round_trip() {
    round_trips::<SingleDiskModelFieldId>(22);
    round_trips::<DiskAggField>(4);
}

#[test]
fn btrfs_catalogs_round_trip() {
    round_trips::<BtrfsModelFieldId>(3);
    round_trips::<BtrfsAggField>(1);
}

#[test]
fn process_catalogs_round_trip() {
    round_trips::<ProcessIoModelFieldId>(3);
    round_trips::<ProcessMemoryModelFieldId>(12);
    round_trips::<ProcessCpuModelFieldId>(4);
    round_trips::<SingleProcessModelFieldId>(8 + 3 + 12 + 4);
    round_trips::<ProcessAggField>(3);
}

#[test]
fn cgroup_catalogs_round_trip() {
    round_trips::<CgroupCpuModelFieldId>(6);
    round_trips::<CgroupMemoryModelFieldId>(44);
    round_trips::<CgroupIoModelFieldId>(11);
    round_trips::<CgroupPressureModelFieldId>(6);
    round_trips::<SingleCgroupModelFieldId>(3 + 6 + 44 + 11 + 6);
    round_trips::<CgroupAggField>(4);
}

#[test]
fn iface_catalogs_round_trip() {
    round_trips::<SingleNetModelFieldId>(30);
    round_trips::<IfaceAggField>(3);
}

#[test]
fn network_catalogs_round_trip() {
    round_trips::<TcpModelFieldId>(12);
    round_trips::<IpModelFieldId>(19);
    round_trips::<Ip6ModelFieldId>(17);
    round_trips::<IcmpModelFieldId>(6);
    round_trips::<Icmp6ModelFieldId>(6);
    round_trips::<UdpModelFieldId>(7);
    round_trips::<Udp6ModelFieldId>(8);
    round_trips::<NetworkModelFieldId>(12 + 19 + 17 + 6 + 6 + 7 + 8);
    round_trips::<NetworkAggField>(4);
    round_trips::<TransportAggField>(3);
}

#[test]
fn groups_expand_within_their_domain() {
    expands_within::<SystemModelFieldId, SystemAggField>(true);
    expands_within::<SingleDiskModelFieldId, DiskAggField>(false);
    expands_within::<BtrfsModelFieldId, BtrfsAggField>(false);
    expands_within::<SingleProcessModelFieldId, ProcessAggField>(true);
    expands_within::<SingleCgroupModelFieldId, CgroupAggField>(true);
    expands_within::<SingleNetModelFieldId, IfaceAggField>(false);
    expands_within::<NetworkModelFieldId, NetworkAggField>(false);
    expands_within::<NetworkModelFieldId, TransportAggField>(false);
}

#[test]
fn process_fields_keep_their_declared_order() {
    let all: Vec<String> =
        SingleProcessModelFieldId::all().iter().map(|field| field.to_string()).collect();
    assert_eq!(all[0], "pid");
    assert_eq!(all[5], "cgroup");
    assert_eq!(all[6], "io.rbytes_per_sec");
    assert_eq!(all[9], "mem.minorfaults_per_sec");
    assert_eq!(all[21], "cpu.usage_pct");
    assert_eq!(all[25], "cmdline");
    assert_eq!(all[26], "exe_path");
}

#[test]
fn disk_groups_expand_as_documented() {
    assert_eq!(
        join(&DiskAggField::Read.expand(false)),
        "read_bytes_per_sec, read_completed, read_merged, read_sectors, time_spend_read_ms"
    );
    assert_eq!(
        join(&DiskAggField::Write.expand(true)),
        "write_bytes_per_sec, write_completed, write_merged, write_sectors, time_spend_write_ms"
    );
    assert_eq!(
        join(&DiskAggField::Discard.expand(false)),
        "discard_bytes_per_sec, discard_completed, discard_merged, discard_sectors, \
         time_spend_discard_ms"
    );
    assert_eq!(
        DiskAggField::FsInfo.expand(false),
        vec![
            SingleDiskModelFieldId::DiskUsage,
            SingleDiskModelFieldId::PartitionSize,
            SingleDiskModelFieldId::FilesystemType,
        ]
    );
    assert_eq!(DiskAggField::FsInfo.to_string(), "fs_info");
}

#[test]
fn btrfs_group_expands_as_documented() {
    assert_eq!(
        BtrfsAggField::DiskUsage.expand(false),
        vec![BtrfsModelFieldId::DiskFraction, BtrfsModelFieldId::DiskBytes]
    );
    assert_eq!(BtrfsAggField::DiskUsage.to_string(), "disk_usage");
}

#[test]
fn process_groups_expand_as_documented() {
    assert_eq!(join(&ProcessAggField::Cpu.expand(false)), "cpu.usage_pct");
    assert_eq!(join(&ProcessAggField::Mem.expand(false)), "mem.rss_bytes");
    assert_eq!(join(&ProcessAggField::Io.expand(false)), "io.rbytes_per_sec, io.wbytes_per_sec");
    assert_eq!(
        join(&ProcessAggField::Io.expand(true)),
        "io.rbytes_per_sec, io.wbytes_per_sec, io.rwbytes_per_sec"
    );
    assert_eq!(
        join(&ProcessAggField::Cpu.expand(true)),
        "cpu.usage_pct, cpu.user_pct, cpu.system_pct, cpu.num_threads"
    );
    assert_eq!(ProcessAggField::Mem.expand(true).len(), 12);
}

#[test]
fn cgroup_groups_expand_as_documented() {
    assert_eq!(join(&CgroupAggField::Cpu.expand(false)), "cpu.usage_pct");
    assert_eq!(join(&CgroupAggField::Mem.expand(false)), "mem.total");
    assert_eq!(join(&CgroupAggField::Io.expand(false)), "io.rbytes_per_sec, io.wbytes_per_sec");
    assert_eq!(
        join(&CgroupAggField::Pressure.expand(false)),
        "pressure.cpu_some_pct, pressure.memory_full_pct, pressure.io_full_pct"
    );
    assert_eq!(
        join(&CgroupAggField::Pressure.expand(true)),
        "pressure.cpu_some_pct, pressure.cpu_full_pct, pressure.io_some_pct, \
         pressure.io_full_pct, pressure.memory_some_pct, pressure.memory_full_pct"
    );
    assert_eq!(CgroupAggField::Mem.expand(true).len(), 44);
}

#[test]
fn iface_groups_expand_as_documented() {
    assert_eq!(
        join(&IfaceAggField::Rate.expand(false)),
        "rx_bytes_per_sec, tx_bytes_per_sec, throughput_per_sec, rx_packets_per_sec, \
         tx_packets_per_sec"
    );
    assert_eq!(
        join(&IfaceAggField::Rx.expand(false)),
        "rx_bytes, rx_compressed, rx_crc_errors, rx_dropped, rx_errors, rx_fifo_errors, \
         rx_frame_errors, rx_length_errors, rx_missed_errors, rx_nohandler, rx_over_errors, \
         rx_packets"
    );
    assert_eq!(
        join(&IfaceAggField::Tx.expand(true)),
        "tx_aborted_errors, tx_bytes, tx_carrier_errors, tx_compressed, tx_dropped, tx_errors, \
         tx_fifo_errors, tx_heartbeat_errors, tx_packets, tx_window_errors"
    );
}

#[test]
fn network_and_transport_groups_expand_to_their_sub_models() {
    let ip: Vec<NetworkModelFieldId> =
        IpModelFieldId::all().into_iter().map(NetworkModelFieldId::Ip).collect();
    assert_eq!(NetworkAggField::Ip.expand(false), ip);
    let icmp6: Vec<NetworkModelFieldId> =
        Icmp6ModelFieldId::all().into_iter().map(NetworkModelFieldId::Icmp6).collect();
    assert_eq!(NetworkAggField::Icmp6.expand(true), icmp6);
    let tcp: Vec<NetworkModelFieldId> =
        TcpModelFieldId::all().into_iter().map(NetworkModelFieldId::Tcp).collect();
    assert_eq!(TransportAggField::Tcp.expand(false), tcp);
    assert_eq!(
        join(&TransportAggField::Udp.expand(false)),
        "udp.in_datagrams_pkts_per_sec, udp.no_ports, udp.in_errors, \
         udp.out_datagrams_pkts_per_sec, udp.rcvbuf_errors, udp.sndbuf_errors, udp.ignored_multi"
    );
    assert_eq!(
        join(&NetworkAggField::Icmp.expand(false)),
        "icmp.in_msgs_per_sec, icmp.in_errors, icmp.in_dest_unreachs, icmp.out_msgs_per_sec, \
         icmp.out_errors, icmp.out_dest_unreachs"
    );
}

#[test]
fn default_selections_are_as_documented() {
    assert_eq!(
        join(&default_disk_fields()),
        "datetime, name, disk_total_bytes_per_sec, major, minor, read, write, discard, fs_info, \
         timestamp"
    );
    assert_eq!(join(&default_btrfs_fields()), "datetime, name, disk_usage, timestamp");
    assert_eq!(
        join(&default_process_fields()),
        "datetime, pid, ppid, comm, state, cpu, mem, io, uptime_secs, cgroup, timestamp, \
         cmdline, exe_path"
    );
    assert_eq!(
        join(&default_cgroup_fields()),
        "name, inode_number, datetime, cpu, mem, io, pressure, timestamp"
    );
    assert_eq!(
        join(&default_iface_fields()),
        "datetime, collisions, multicast, interface, rate, rx, tx, timestamp"
    );
    assert_eq!(join(&default_network_fields()), "datetime, ip, ip6, icmp, icmp6, timestamp");
    assert_eq!(join(&default_transport_fields()), "datetime, tcp, udp, udp6, timestamp");
}

#[test]
fn btrfs_default_selection_expands_in_order() {
    let name = DumpField::FieldId(BtrfsModelFieldId::Name);
    assert_eq!(
        expand_fields(&default_btrfs_fields(), true),
        vec![
            DumpField::Common(CommonField::Datetime),
            name,
            DumpField::FieldId(BtrfsModelFieldId::DiskFraction),
            DumpField::FieldId(BtrfsModelFieldId::DiskBytes),
            DumpField::Common(CommonField::Timestamp),
        ]
    );
    assert_eq!(
        default_btrfs_fields()[2],
        DumpOptionField::Agg(BtrfsAggField::DiskUsage)
    );
}
