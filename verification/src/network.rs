//! The network and transport domains: one row for the whole machine, for the
//! network layer and for the transport layer.

use crate::catalog::{
    extend_mapped, lemma_all_listed, lemma_listed_in_concat, lemma_listed_in_image,
    lemma_names_behind, mapped, Catalog, Named,
};
use crate::field::{names_apart, AggField, CommonField, DumpField, DumpOptionField, FieldId};
use crate::help::{long_about, spec_long_about, DETAIL_NO_EFFECT};
use crate::text::{lemma_spell, lemma_spell_beginning};
use vstd::prelude::*;
use vstd::string::StringExecFns;

verus! {

/// Counters of TCP.
#[derive(Clone, Copy, Debug, PartialEq, Eq, Hash, Structural)]
pub enum TcpModelFieldId {
    ActiveOpensPerSec,
    PassiveOpensPerSec,
    AttemptFailsPerSec,
    EstabResetsPerSec,
    CurrEstabConn,
    InSegsPerSec,
    OutSegsPerSec,
    RetransSegsPerSec,
    RetransSegs,
    InErrs,
    OutRstsPerSec,
    InCsumErrors,
}

impl Named for TcpModelFieldId {
    open spec fn name(&self) -> Seq<char> {
        match self {
            Self::ActiveOpensPerSec => "active_opens_per_sec"@,
            Self::PassiveOpensPerSec => "passive_opens_per_sec"@,
            Self::AttemptFailsPerSec => "attempt_fails_per_sec"@,
            Self::EstabResetsPerSec => "estab_resets_per_sec"@,
            Self::CurrEstabConn => "curr_estab_conn"@,
            Self::InSegsPerSec => "in_segs_per_sec"@,
            Self::OutSegsPerSec => "out_segs_per_sec"@,
            Self::RetransSegsPerSec => "retrans_segs_per_sec"@,
            Self::RetransSegs => "retrans_segs"@,
            Self::InErrs => "in_errs"@,
            Self::OutRstsPerSec => "out_rsts_per_sec"@,
            Self::InCsumErrors => "in_csum_errors"@,
        }
    }

    fn to_string(&self) -> String {
        match self {
            Self::ActiveOpensPerSec => "active_opens_per_sec".to_owned(),
            Self::PassiveOpensPerSec => "passive_opens_per_sec".to_owned(),
            Self::AttemptFailsPerSec => "attempt_fails_per_sec".to_owned(),
            Self::EstabResetsPerSec => "estab_resets_per_sec".to_owned(),
            Self::CurrEstabConn => "curr_estab_conn".to_owned(),
            Self::InSegsPerSec => "in_segs_per_sec".to_owned(),
            Self::OutSegsPerSec => "out_segs_per_sec".to_owned(),
            Self::RetransSegsPerSec => "retrans_segs_per_sec".to_owned(),
            Self::RetransSegs => "retrans_segs".to_owned(),
            Self::InErrs => "in_errs".to_owned(),
            Self::OutRstsPerSec => "out_rsts_per_sec".to_owned(),
            Self::InCsumErrors => "in_csum_errors".to_owned(),
        }
    }
}

impl Catalog for TcpModelFieldId {
    open spec fn spec_all() -> Seq<Self> {
        seq![
            Self::ActiveOpensPerSec,
            Self::PassiveOpensPerSec,
            Self::AttemptFailsPerSec,
            Self::EstabResetsPerSec,
            Self::CurrEstabConn,
            Self::InSegsPerSec,
            Self::OutSegsPerSec,
            Self::RetransSegsPerSec,
            Self::RetransSegs,
            Self::InErrs,
            Self::OutRstsPerSec,
            Self::InCsumErrors,
        ]
    }

    fn all() -> Vec<Self> {
        vec![
            Self::ActiveOpensPerSec,
            Self::PassiveOpensPerSec,
            Self::AttemptFailsPerSec,
            Self::EstabResetsPerSec,
            Self::CurrEstabConn,
            Self::InSegsPerSec,
            Self::OutSegsPerSec,
            Self::RetransSegsPerSec,
            Self::RetransSegs,
            Self::InErrs,
            Self::OutRstsPerSec,
            Self::InCsumErrors,
        ]
    }

    proof fn lemma_listed(self) {
        let all = Self::spec_all();
        match self {
            Self::ActiveOpensPerSec => assert(all[0] == self),
            Self::PassiveOpensPerSec => assert(all[1] == self),
            Self::AttemptFailsPerSec => assert(all[2] == self),
            Self::EstabResetsPerSec => assert(all[3] == self),
            Self::CurrEstabConn => assert(all[4] == self),
            Self::InSegsPerSec => assert(all[5] == self),
            Self::OutSegsPerSec => assert(all[6] == self),
            Self::RetransSegsPerSec => assert(all[7] == self),
            Self::RetransSegs => assert(all[8] == self),
            Self::InErrs => assert(all[9] == self),
            Self::OutRstsPerSec => assert(all[10] == self),
            Self::InCsumErrors => assert(all[11] == self),
        }
    }

    proof fn lemma_names(self, other: Self) {
        lemma_spell(self.name());
        lemma_spell(other.name());
        reveal_strlit("active_opens_per_sec");
        reveal_strlit("passive_opens_per_sec");
        reveal_strlit("attempt_fails_per_sec");
        reveal_strlit("estab_resets_per_sec");
        reveal_strlit("curr_estab_conn");
        reveal_strlit("in_segs_per_sec");
        reveal_strlit("out_segs_per_sec");
        reveal_strlit("retrans_segs_per_sec");
        reveal_strlit("retrans_segs");
        reveal_strlit("in_errs");
        reveal_strlit("out_rsts_per_sec");
        reveal_strlit("in_csum_errors");
    }
}

/// Counters of IPv4.
#[derive(Clone, Copy, Debug, PartialEq, Eq, Hash, Structural)]
pub enum IpModelFieldId {
    ForwardingPktsPerSec,
    InReceivesPktsPerSec,
    ForwDatagramsPerSec,
    InDiscardsPktsPerSec,
    InDeliversPktsPerSec,
    OutRequestsPerSec,
    OutDiscardsPktsPerSec,
    OutNoRoutesPktsPerSec,
    InMcastPktsPerSec,
    OutMcastPktsPerSec,
    InBcastPktsPerSec,
    OutBcastPktsPerSec,
    InOctetsPerSec,
    OutOctetsPerSec,
    InMcastOctetsPerSec,
    OutMcastOctetsPerSec,
    InBcastOctetsPerSec,
    OutBcastOctetsPerSec,
    InNoEctPktsPerSec,
}

impl Named for IpModelFieldId {
    open spec fn name(&self) -> Seq<char> {
        match self {
            Self::ForwardingPktsPerSec => "forwarding_pkts_per_sec"@,
            Self::InReceivesPktsPerSec => "in_receives_pkts_per_sec"@,
            Self::ForwDatagramsPerSec => "forw_datagrams_per_sec"@,
            Self::InDiscardsPktsPerSec => "in_discards_pkts_per_sec"@,
            Self::InDeliversPktsPerSec => "in_delivers_pkts_per_sec"@,
            Self::OutRequestsPerSec => "out_requests_per_sec"@,
            Self::OutDiscardsPktsPerSec => "out_discards_pkts_per_sec"@,
            Self::OutNoRoutesPktsPerSec => "out_no_routes_pkts_per_sec"@,
            Self::InMcastPktsPerSec => "in_mcast_pkts_per_sec"@,
            Self::OutMcastPktsPerSec => "out_mcast_pkts_per_sec"@,
            Self::InBcastPktsPerSec => "in_bcast_pkts_per_sec"@,
            Self::OutBcastPktsPerSec => "out_bcast_pkts_per_sec"@,
            Self::InOctetsPerSec => "in_octets_per_sec"@,
            Self::OutOctetsPerSec => "out_octets_per_sec"@,
            Self::InMcastOctetsPerSec => "in_mcast_octets_per_sec"@,
            Self::OutMcastOctetsPerSec => "out_mcast_octets_per_sec"@,
            Self::InBcastOctetsPerSec => "in_bcast_octets_per_sec"@,
            Self::OutBcastOctetsPerSec => "out_bcast_octets_per_sec"@,
            Self::InNoEctPktsPerSec => "in_no_ect_pkts_per_sec"@,
        }
    }

    fn to_string(&self) -> String {
        match self {
            Self::ForwardingPktsPerSec => "forwarding_pkts_per_sec".to_owned(),
            Self::InReceivesPktsPerSec => "in_receives_pkts_per_sec".to_owned(),
            Self::ForwDatagramsPerSec => "forw_datagrams_per_sec".to_owned(),
            Self::InDiscardsPktsPerSec => "in_discards_pkts_per_sec".to_owned(),
            Self::InDeliversPktsPerSec => "in_delivers_pkts_per_sec".to_owned(),
            Self::OutRequestsPerSec => "out_requests_per_sec".to_owned(),
            Self::OutDiscardsPktsPerSec => "out_discards_pkts_per_sec".to_owned(),
            Self::OutNoRoutesPktsPerSec => "out_no_routes_pkts_per_sec".to_owned(),
            Self::InMcastPktsPerSec => "in_mcast_pkts_per_sec".to_owned(),
            Self::OutMcastPktsPerSec => "out_mcast_pkts_per_sec".to_owned(),
            Self::InBcastPktsPerSec => "in_bcast_pkts_per_sec".to_owned(),
            Self::OutBcastPktsPerSec => "out_bcast_pkts_per_sec".to_owned(),
            Self::InOctetsPerSec => "in_octets_per_sec".to_owned(),
            Self::OutOctetsPerSec => "out_octets_per_sec".to_owned(),
            Self::InMcastOctetsPerSec => "in_mcast_octets_per_sec".to_owned(),
            Self::OutMcastOctetsPerSec => "out_mcast_octets_per_sec".to_owned(),
            Self::InBcastOctetsPerSec => "in_bcast_octets_per_sec".to_owned(),
            Self::OutBcastOctetsPerSec => "out_bcast_octets_per_sec".to_owned(),
            Self::InNoEctPktsPerSec => "in_no_ect_pkts_per_sec".to_owned(),
        }
    }
}

impl Catalog for IpModelFieldId {
    open spec fn spec_all() -> Seq<Self> {
        seq![
            Self::ForwardingPktsPerSec,
            Self::InReceivesPktsPerSec,
            Self::ForwDatagramsPerSec,
            Self::InDiscardsPktsPerSec,
            Self::InDeliversPktsPerSec,
            Self::OutRequestsPerSec,
            Self::OutDiscardsPktsPerSec,
            Self::OutNoRoutesPktsPerSec,
            Self::InMcastPktsPerSec,
            Self::OutMcastPktsPerSec,
            Self::InBcastPktsPerSec,
            Self::OutBcastPktsPerSec,
            Self::InOctetsPerSec,
            Self::OutOctetsPerSec,
            Self::InMcastOctetsPerSec,
            Self::OutMcastOctetsPerSec,
            Self::InBcastOctetsPerSec,
            Self::OutBcastOctetsPerSec,
            Self::InNoEctPktsPerSec,
        ]
    }

    fn all() -> Vec<Self> {
        vec![
            Self::ForwardingPktsPerSec,
            Self::InReceivesPktsPerSec,
            Self::ForwDatagramsPerSec,
            Self::InDiscardsPktsPerSec,
            Self::InDeliversPktsPerSec,
            Self::OutRequestsPerSec,
            Self::OutDiscardsPktsPerSec,
            Self::OutNoRoutesPktsPerSec,
            Self::InMcastPktsPerSec,
            Self::OutMcastPktsPerSec,
            Self::InBcastPktsPerSec,
            Self::OutBcastPktsPerSec,
            Self::InOctetsPerSec,
            Self::OutOctetsPerSec,
            Self::InMcastOctetsPerSec,
            Self::OutMcastOctetsPerSec,
            Self::InBcastOctetsPerSec,
            Self::OutBcastOctetsPerSec,
            Self::InNoEctPktsPerSec,
        ]
    }

    proof fn lemma_listed(self) {
        let all = Self::spec_all();
        match self {
            Self::ForwardingPktsPerSec => assert(all[0] == self),
            Self::InReceivesPktsPerSec => assert(all[1] == self),
            Self::ForwDatagramsPerSec => assert(all[2] == self),
            Self::InDiscardsPktsPerSec => assert(all[3] == self),
            Self::InDeliversPktsPerSec => assert(all[4] == self),
            Self::OutRequestsPerSec => assert(all[5] == self),
            Self::OutDiscardsPktsPerSec => assert(all[6] == self),
            Self::OutNoRoutesPktsPerSec => assert(all[7] == self),
            Self::InMcastPktsPerSec => assert(all[8] == self),
            Self::OutMcastPktsPerSec => assert(all[9] == self),
            Self::InBcastPktsPerSec => assert(all[10] == self),
            Self::OutBcastPktsPerSec => assert(all[11] == self),
            Self::InOctetsPerSec => assert(all[12] == self),
            Self::OutOctetsPerSec => assert(all[13] == self),
            Self::InMcastOctetsPerSec => assert(all[14] == self),
            Self::OutMcastOctetsPerSec => assert(all[15] == self),
            Self::InBcastOctetsPerSec => assert(all[16] == self),
            Self::OutBcastOctetsPerSec => assert(all[17] == self),
            Self::InNoEctPktsPerSec => assert(all[18] == self),
        }
    }

    proof fn lemma_names(self, other: Self) {
        lemma_spell(self.name());
        lemma_spell(other.name());
        reveal_strlit("forwarding_pkts_per_sec");
        reveal_strlit("in_receives_pkts_per_sec");
        reveal_strlit("forw_datagrams_per_sec");
        reveal_strlit("in_discards_pkts_per_sec");
        reveal_strlit("in_delivers_pkts_per_sec");
        reveal_strlit("out_requests_per_sec");
        reveal_strlit("out_discards_pkts_per_sec");
        reveal_strlit("out_no_routes_pkts_per_sec");
        reveal_strlit("in_mcast_pkts_per_sec");
        reveal_strlit("out_mcast_pkts_per_sec");
        reveal_strlit("in_bcast_pkts_per_sec");
        reveal_strlit("out_bcast_pkts_per_sec");
        reveal_strlit("in_octets_per_sec");
        reveal_strlit("out_octets_per_sec");
        reveal_strlit("in_mcast_octets_per_sec");
        reveal_strlit("out_mcast_octets_per_sec");
        reveal_strlit("in_bcast_octets_per_sec");
        reveal_strlit("out_bcast_octets_per_sec");
        reveal_strlit("in_no_ect_pkts_per_sec");
    }
}

/// Counters of IPv6.
#[derive(Clone, Copy, Debug, PartialEq, Eq, Hash, Structural)]
pub enum Ip6ModelFieldId {
    InReceivesPktsPerSec,
    InHdrErrors,
    InNoRoutesPktsPerSec,
    InAddrErrors,
    InDiscardsPktsPerSec,
    InDeliversPktsPerSec,
    OutForwDatagramsPerSec,
    OutRequestsPerSec,
    OutNoRoutesPktsPerSec,
    InMcastPktsPerSec,
    OutMcastPktsPerSec,
    InOctetsPerSec,
    OutOctetsPerSec,
    InMcastOctetsPerSec,
    OutMcastOctetsPerSec,
    InBcastOctetsPerSec,
    OutBcastOctetsPerSec,
}

impl Named for Ip6ModelFieldId {
    open spec fn name(&self) -> Seq<char> {
        match self {
            Self::InReceivesPktsPerSec => "in_receives_pkts_per_sec"@,
            Self::InHdrErrors => "in_hdr_errors"@,
            Self::InNoRoutesPktsPerSec => "in_no_routes_pkts_per_sec"@,
            Self::InAddrErrors => "in_addr_errors"@,
            Self::InDiscardsPktsPerSec => "in_discards_pkts_per_sec"@,
            Self::InDeliversPktsPerSec => "in_delivers_pkts_per_sec"@,
            Self::OutForwDatagramsPerSec => "out_forw_datagrams_per_sec"@,
            Self::OutRequestsPerSec => "out_requests_per_sec"@,
            Self::OutNoRoutesPktsPerSec => "out_no_routes_pkts_per_sec"@,
            Self::InMcastPktsPerSec => "in_mcast_pkts_per_sec"@,
            Self::OutMcastPktsPerSec => "out_mcast_pkts_per_sec"@,
            Self::InOctetsPerSec => "in_octets_per_sec"@,
            Self::OutOctetsPerSec => "out_octets_per_sec"@,
            Self::InMcastOctetsPerSec => "in_mcast_octets_per_sec"@,
            Self::OutMcastOctetsPerSec => "out_mcast_octets_per_sec"@,
            Self::InBcastOctetsPerSec => "in_bcast_octets_per_sec"@,
            Self::OutBcastOctetsPerSec => "out_bcast_octets_per_sec"@,
        }
    }

    fn to_string(&self) -> String {
        match self {
            Self::InReceivesPktsPerSec => "in_receives_pkts_per_sec".to_owned(),
            Self::InHdrErrors => "in_hdr_errors".to_owned(),
            Self::InNoRoutesPktsPerSec => "in_no_routes_pkts_per_sec".to_owned(),
            Self::InAddrErrors => "in_addr_errors".to_owned(),
            Self::InDiscardsPktsPerSec => "in_discards_pkts_per_sec".to_owned(),
            Self::InDeliversPktsPerSec => "in_delivers_pkts_per_sec".to_owned(),
            Self::OutForwDatagramsPerSec => "out_forw_datagrams_per_sec".to_owned(),
            Self::OutRequestsPerSec => "out_requests_per_sec".to_owned(),
            Self::OutNoRoutesPktsPerSec => "out_no_routes_pkts_per_sec".to_owned(),
            Self::InMcastPktsPerSec => "in_mcast_pkts_per_sec".to_owned(),
            Self::OutMcastPktsPerSec => "out_mcast_pkts_per_sec".to_owned(),
            Self::InOctetsPerSec => "in_octets_per_sec".to_owned(),
            Self::OutOctetsPerSec => "out_octets_per_sec".to_owned(),
            Self::InMcastOctetsPerSec => "in_mcast_octets_per_sec".to_owned(),
            Self::OutMcastOctetsPerSec => "out_mcast_octets_per_sec".to_owned(),
            Self::InBcastOctetsPerSec => "in_bcast_octets_per_sec".to_owned(),
            Self::OutBcastOctetsPerSec => "out_bcast_octets_per_sec".to_owned(),
        }
    }
}

impl Catalog for Ip6ModelFieldId {
    open spec fn spec_all() -> Seq<Self> {
        seq![
            Self::InReceivesPktsPerSec,
            Self::InHdrErrors,
            Self::InNoRoutesPktsPerSec,
            Self::InAddrErrors,
            Self::InDiscardsPktsPerSec,
            Self::InDeliversPktsPerSec,
            Self::OutForwDatagramsPerSec,
            Self::OutRequestsPerSec,
            Self::OutNoRoutesPktsPerSec,
            Self::InMcastPktsPerSec,
            Self::OutMcastPktsPerSec,
            Self::InOctetsPerSec,
            Self::OutOctetsPerSec,
            Self::InMcastOctetsPerSec,
            Self::OutMcastOctetsPerSec,
            Self::InBcastOctetsPerSec,
            Self::OutBcastOctetsPerSec,
        ]
    }

    fn all() -> Vec<Self> {
        vec![
            Self::InReceivesPktsPerSec,
            Self::InHdrErrors,
            Self::InNoRoutesPktsPerSec,
            Self::InAddrErrors,
            Self::InDiscardsPktsPerSec,
            Self::InDeliversPktsPerSec,
            Self::OutForwDatagramsPerSec,
            Self::OutRequestsPerSec,
            Self::OutNoRoutesPktsPerSec,
            Self::InMcastPktsPerSec,
            Self::OutMcastPktsPerSec,
            Self::InOctetsPerSec,
            Self::OutOctetsPerSec,
            Self::InMcastOctetsPerSec,
            Self::OutMcastOctetsPerSec,
            Self::InBcastOctetsPerSec,
            Self::OutBcastOctetsPerSec,
        ]
    }

    proof fn lemma_listed(self) {
        let all = Self::spec_all();
        match self {
            Self::InReceivesPktsPerSec => assert(all[0] == self),
            Self::InHdrErrors => assert(all[1] == self),
            Self::InNoRoutesPktsPerSec => assert(all[2] == self),
            Self::InAddrErrors => assert(all[3] == self),
            Self::InDiscardsPktsPerSec => assert(all[4] == self),
            Self::InDeliversPktsPerSec => assert(all[5] == self),
            Self::OutForwDatagramsPerSec => assert(all[6] == self),
            Self::OutRequestsPerSec => assert(all[7] == self),
            Self::OutNoRoutesPktsPerSec => assert(all[8] == self),
            Self::InMcastPktsPerSec => assert(all[9] == self),
            Self::OutMcastPktsPerSec => assert(all[10] == self),
            Self::InOctetsPerSec => assert(all[11] == self),
            Self::OutOctetsPerSec => assert(all[12] == self),
            Self::InMcastOctetsPerSec => assert(all[13] == self),
            Self::OutMcastOctetsPerSec => assert(all[14] == self),
            Self::InBcastOctetsPerSec => assert(all[15] == self),
            Self::OutBcastOctetsPerSec => assert(all[16] == self),
        }
    }

    proof fn lemma_names(self, other: Self) {
        lemma_spell(self.name());
        lemma_spell(other.name());
        reveal_strlit("in_receives_pkts_per_sec");
        reveal_strlit("in_hdr_errors");
        reveal_strlit("in_no_routes_pkts_per_sec");
        reveal_strlit("in_addr_errors");
        reveal_strlit("in_discards_pkts_per_sec");
        reveal_strlit("in_delivers_pkts_per_sec");
        reveal_strlit("out_forw_datagrams_per_sec");
        reveal_strlit("out_requests_per_sec");
        reveal_strlit("out_no_routes_pkts_per_sec");
        reveal_strlit("in_mcast_pkts_per_sec");
        reveal_strlit("out_mcast_pkts_per_sec");
        reveal_strlit("in_octets_per_sec");
        reveal_strlit("out_octets_per_sec");
        reveal_strlit("in_mcast_octets_per_sec");
        reveal_strlit("out_mcast_octets_per_sec");
        reveal_strlit("in_bcast_octets_per_sec");
        reveal_strlit("out_bcast_octets_per_sec");
    }
}

/// Counters of ICMP.
#[derive(Clone, Copy, Debug, PartialEq, Eq, Hash, Structural)]
pub enum IcmpModelFieldId {
    InMsgsPerSec,
    InErrors,
    InDestUnreachs,
    OutMsgsPerSec,
    OutErrors,
    OutDestUnreachs,
}

impl Named for IcmpModelFieldId {
    open spec fn name(&self) -> Seq<char> {
        match self {
            Self::InMsgsPerSec => "in_msgs_per_sec"@,
            Self::InErrors => "in_errors"@,
            Self::InDestUnreachs => "in_dest_unreachs"@,
            Self::OutMsgsPerSec => "out_msgs_per_sec"@,
            Self::OutErrors => "out_errors"@,
            Self::OutDestUnreachs => "out_dest_unreachs"@,
        }
    }

    fn to_string(&self) -> String {
        match self {
            Self::InMsgsPerSec => "in_msgs_per_sec".to_owned(),
            Self::InErrors => "in_errors".to_owned(),
            Self::InDestUnreachs => "in_dest_unreachs".to_owned(),
            Self::OutMsgsPerSec => "out_msgs_per_sec".to_owned(),
            Self::OutErrors => "out_errors".to_owned(),
            Self::OutDestUnreachs => "out_dest_unreachs".to_owned(),
        }
    }
}

impl Catalog for IcmpModelFieldId {
    open spec fn spec_all() -> Seq<Self> {
        seq![
            Self::InMsgsPerSec,
            Self::InErrors,
            Self::InDestUnreachs,
            Self::OutMsgsPerSec,
            Self::OutErrors,
            Self::OutDestUnreachs,
        ]
    }

    fn all() -> Vec<Self> {
        vec![
            Self::InMsgsPerSec,
            Self::InErrors,
            Self::InDestUnreachs,
            Self::OutMsgsPerSec,
            Self::OutErrors,
            Self::OutDestUnreachs,
        ]
    }

    proof fn lemma_listed(self) {
        let all = Self::spec_all();
        match self {
            Self::InMsgsPerSec => assert(all[0] == self),
            Self::InErrors => assert(all[1] == self),
            Self::InDestUnreachs => assert(all[2] == self),
            Self::OutMsgsPerSec => assert(all[3] == self),
            Self::OutErrors => assert(all[4] == self),
            Self::OutDestUnreachs => assert(all[5] == self),
        }
    }

    proof fn lemma_names(self, other: Self) {
        lemma_spell(self.name());
        lemma_spell(other.name());
        reveal_strlit("in_msgs_per_sec");
        reveal_strlit("in_errors");
        reveal_strlit("in_dest_unreachs");
        reveal_strlit("out_msgs_per_sec");
        reveal_strlit("out_errors");
        reveal_strlit("out_dest_unreachs");
    }
}

/// Counters of ICMPv6.
#[derive(Clone, Copy, Debug, PartialEq, Eq, Hash, Structural)]
pub enum Icmp6ModelFieldId {
    InMsgsPerSec,
    InErrors,
    InDestUnreachs,
    OutMsgsPerSec,
    OutErrors,
    OutDestUnreachs,
}

impl Named for Icmp6ModelFieldId {
    open spec fn name(&self) -> Seq<char> {
        match self {
            Self::InMsgsPerSec => "in_msgs_per_sec"@,
            Self::InErrors => "in_errors"@,
            Self::InDestUnreachs => "in_dest_unreachs"@,
            Self::OutMsgsPerSec => "out_msgs_per_sec"@,
            Self::OutErrors => "out_errors"@,
            Self::OutDestUnreachs => "out_dest_unreachs"@,
        }
    }

    fn to_string(&self) -> String {
        match self {
            Self::InMsgsPerSec => "in_msgs_per_sec".to_owned(),
            Self::InErrors => "in_errors".to_owned(),
            Self::InDestUnreachs => "in_dest_unreachs".to_owned(),
            Self::OutMsgsPerSec => "out_msgs_per_sec".to_owned(),
            Self::OutErrors => "out_errors".to_owned(),
            Self::OutDestUnreachs => "out_dest_unreachs".to_owned(),
        }
    }
}

impl Catalog for Icmp6ModelFieldId {
    open spec fn spec_all() -> Seq<Self> {
        seq![
            Self::InMsgsPerSec,
            Self::InErrors,
            Self::InDestUnreachs,
            Self::OutMsgsPerSec,
            Self::OutErrors,
            Self::OutDestUnreachs,
        ]
    }

    fn all() -> Vec<Self> {
        vec![
            Self::InMsgsPerSec,
            Self::InErrors,
            Self::InDestUnreachs,
            Self::OutMsgsPerSec,
            Self::OutErrors,
            Self::OutDestUnreachs,
        ]
    }

    proof fn lemma_listed(self) {
        let all = Self::spec_all();
        match self {
            Self::InMsgsPerSec => assert(all[0] == self),
            Self::InErrors => assert(all[1] == self),
            Self::InDestUnreachs => assert(all[2] == self),
            Self::OutMsgsPerSec => assert(all[3] == self),
            Self::OutErrors => assert(all[4] == self),
            Self::OutDestUnreachs => assert(all[5] == self),
        }
    }

    proof fn lemma_names(self, other: Self) {
        lemma_spell(self.name());
        lemma_spell(other.name());
        reveal_strlit("in_msgs_per_sec");
        reveal_strlit("in_errors");
        reveal_strlit("in_dest_unreachs");
        reveal_strlit("out_msgs_per_sec");
        reveal_strlit("out_errors");
        reveal_strlit("out_dest_unreachs");
    }
}

/// Counters of UDP.
#[derive(Clone, Copy, Debug, PartialEq, Eq, Hash, Structural)]
pub enum UdpModelFieldId {
    InDatagramsPktsPerSec,
    NoPorts,
    InErrors,
    OutDatagramsPktsPerSec,
    RcvbufErrors,
    SndbufErrors,
    IgnoredMulti,
}

impl Named for UdpModelFieldId {
    open spec fn name(&self) -> Seq<char> {
        match self {
            Self::InDatagramsPktsPerSec => "in_datagrams_pkts_per_sec"@,
            Self::NoPorts => "no_ports"@,
            Self::InErrors => "in_errors"@,
            Self::OutDatagramsPktsPerSec => "out_datagrams_pkts_per_sec"@,
            Self::RcvbufErrors => "rcvbuf_errors"@,
            Self::SndbufErrors => "sndbuf_errors"@,
            Self::IgnoredMulti => "ignored_multi"@,
        }
    }

    fn to_string(&self) -> String {
        match self {
            Self::InDatagramsPktsPerSec => "in_datagrams_pkts_per_sec".to_owned(),
            Self::NoPorts => "no_ports".to_owned(),
            Self::InErrors => "in_errors".to_owned(),
            Self::OutDatagramsPktsPerSec => "out_datagrams_pkts_per_sec".to_owned(),
            Self::RcvbufErrors => "rcvbuf_errors".to_owned(),
            Self::SndbufErrors => "sndbuf_errors".to_owned(),
            Self::IgnoredMulti => "ignored_multi".to_owned(),
        }
    }
}

impl Catalog for UdpModelFieldId {
    open spec fn spec_all() -> Seq<Self> {
        seq![
            Self::InDatagramsPktsPerSec,
            Self::NoPorts,
            Self::InErrors,
            Self::OutDatagramsPktsPerSec,
            Self::RcvbufErrors,
            Self::SndbufErrors,
            Self::IgnoredMulti,
        ]
    }

    fn all() -> Vec<Self> {
        vec![
            Self::InDatagramsPktsPerSec,
            Self::NoPorts,
            Self::InErrors,
            Self::OutDatagramsPktsPerSec,
            Self::RcvbufErrors,
            Self::SndbufErrors,
            Self::IgnoredMulti,
        ]
    }

    proof fn lemma_listed(self) {
        let all = Self::spec_all();
        match self {
            Self::InDatagramsPktsPerSec => assert(all[0] == self),
            Self::NoPorts => assert(all[1] == self),
            Self::InErrors => assert(all[2] == self),
            Self::OutDatagramsPktsPerSec => assert(all[3] == self),
            Self::RcvbufErrors => assert(all[4] == self),
            Self::SndbufErrors => assert(all[5] == self),
            Self::IgnoredMulti => assert(all[6] == self),
        }
    }

    proof fn lemma_names(self, other: Self) {
        lemma_spell(self.name());
        lemma_spell(other.name());
        reveal_strlit("in_datagrams_pkts_per_sec");
        reveal_strlit("no_ports");
        reveal_strlit("in_errors");
        reveal_strlit("out_datagrams_pkts_per_sec");
        reveal_strlit("rcvbuf_errors");
        reveal_strlit("sndbuf_errors");
        reveal_strlit("ignored_multi");
    }
}

/// Counters of UDP over IPv6.
#[derive(Clone, Copy, Debug, PartialEq, Eq, Hash, Structural)]
pub enum Udp6ModelFieldId {
    InDatagramsPktsPerSec,
    NoPorts,
    InErrors,
    OutDatagramsPktsPerSec,
    RcvbufErrors,
    SndbufErrors,
    InCsumErrors,
    IgnoredMulti,
}

impl Named for Udp6ModelFieldId {
    open spec fn name(&self) -> Seq<char> {
        match self {
            Self::InDatagramsPktsPerSec => "in_datagrams_pkts_per_sec"@,
            Self::NoPorts => "no_ports"@,
            Self::InErrors => "in_errors"@,
            Self::OutDatagramsPktsPerSec => "out_datagrams_pkts_per_sec"@,
            Self::RcvbufErrors => "rcvbuf_errors"@,
            Self::SndbufErrors => "sndbuf_errors"@,
            Self::InCsumErrors => "in_csum_errors"@,
            Self::IgnoredMulti => "ignored_multi"@,
        }
    }

    fn to_string(&self) -> String {
        match self {
            Self::InDatagramsPktsPerSec => "in_datagrams_pkts_per_sec".to_owned(),
            Self::NoPorts => "no_ports".to_owned(),
            Self::InErrors => "in_errors".to_owned(),
            Self::OutDatagramsPktsPerSec => "out_datagrams_pkts_per_sec".to_owned(),
            Self::RcvbufErrors => "rcvbuf_errors".to_owned(),
            Self::SndbufErrors => "sndbuf_errors".to_owned(),
            Self::InCsumErrors => "in_csum_errors".to_owned(),
            Self::IgnoredMulti => "ignored_multi".to_owned(),
        }
    }
}

impl Catalog for Udp6ModelFieldId {
    open spec fn spec_all() -> Seq<Self> {
        seq![
            Self::InDatagramsPktsPerSec,
            Self::NoPorts,
            Self::InErrors,
            Self::OutDatagramsPktsPerSec,
            Self::RcvbufErrors,
            Self::SndbufErrors,
            Self::InCsumErrors,
            Self::IgnoredMulti,
        ]
    }

    fn all() -> Vec<Self> {
        vec![
            Self::InDatagramsPktsPerSec,
            Self::NoPorts,
            Self::InErrors,
            Self::OutDatagramsPktsPerSec,
            Self::RcvbufErrors,
            Self::SndbufErrors,
            Self::InCsumErrors,
            Self::IgnoredMulti,
        ]
    }

    proof fn lemma_listed(self) {
        let all = Self::spec_all();
        match self {
            Self::InDatagramsPktsPerSec => assert(all[0] == self),
            Self::NoPorts => assert(all[1] == self),
            Self::InErrors => assert(all[2] == self),
            Self::OutDatagramsPktsPerSec => assert(all[3] == self),
            Self::RcvbufErrors => assert(all[4] == self),
            Self::SndbufErrors => assert(all[5] == self),
            Self::InCsumErrors => assert(all[6] == self),
            Self::IgnoredMulti => assert(all[7] == self),
        }
    }

    proof fn lemma_names(self, other: Self) {
        lemma_spell(self.name());
        lemma_spell(other.name());
        reveal_strlit("in_datagrams_pkts_per_sec");
        reveal_strlit("no_ports");
        reveal_strlit("in_errors");
        reveal_strlit("out_datagrams_pkts_per_sec");
        reveal_strlit("rcvbuf_errors");
        reveal_strlit("sndbuf_errors");
        reveal_strlit("in_csum_errors");
        reveal_strlit("ignored_multi");
    }
}

/// Leaf fields of the network and transport domains.
#[derive(Clone, Copy, Debug, PartialEq, Eq, Hash, Structural)]
pub enum NetworkModelFieldId {
    Tcp(TcpModelFieldId),
    Ip(IpModelFieldId),
    Ip6(Ip6ModelFieldId),
    Icmp(IcmpModelFieldId),
    Icmp6(Icmp6ModelFieldId),
    Udp(UdpModelFieldId),
    Udp6(Udp6ModelFieldId),
}

impl Named for NetworkModelFieldId {
    open spec fn name(&self) -> Seq<char> {
        match self {
            Self::Tcp(field) => "tcp."@ + field.name(),
            Self::Ip(field) => "ip."@ + field.name(),
            Self::Ip6(field) => "ip6."@ + field.name(),
            Self::Icmp(field) => "icmp."@ + field.name(),
            Self::Icmp6(field) => "icmp6."@ + field.name(),
            Self::Udp(field) => "udp."@ + field.name(),
            Self::Udp6(field) => "udp6."@ + field.name(),
        }
    }

    fn to_string(&self) -> String {
        match self {
            Self::Tcp(field) => "tcp.".to_owned().concat(field.to_string().as_str()),
            Self::Ip(field) => "ip.".to_owned().concat(field.to_string().as_str()),
            Self::Ip6(field) => "ip6.".to_owned().concat(field.to_string().as_str()),
            Self::Icmp(field) => "icmp.".to_owned().concat(field.to_string().as_str()),
            Self::Icmp6(field) => "icmp6.".to_owned().concat(field.to_string().as_str()),
            Self::Udp(field) => "udp.".to_owned().concat(field.to_string().as_str()),
            Self::Udp6(field) => "udp6.".to_owned().concat(field.to_string().as_str()),
        }
    }
}

impl Catalog for NetworkModelFieldId {
    open spec fn spec_all() -> Seq<Self> {
        TcpModelFieldId::spec_all().map_values(
            |field: TcpModelFieldId| Self::Tcp(field),
        )
            + IpModelFieldId::spec_all().map_values(
                |field: IpModelFieldId| Self::Ip(field),
            )
            + Ip6ModelFieldId::spec_all().map_values(
                |field: Ip6ModelFieldId| Self::Ip6(field),
            )
            + IcmpModelFieldId::spec_all().map_values(
                |field: IcmpModelFieldId| Self::Icmp(field),
            )
            + Icmp6ModelFieldId::spec_all().map_values(
                |field: Icmp6ModelFieldId| Self::Icmp6(field),
            )
            + UdpModelFieldId::spec_all().map_values(
                |field: UdpModelFieldId| Self::Udp(field),
            )
            + Udp6ModelFieldId::spec_all().map_values(
                |field: Udp6ModelFieldId| Self::Udp6(field),
            )
    }

    fn all() -> Vec<Self> {
        let mut all = Vec::new();
        extend_mapped(
            &mut all,
            &TcpModelFieldId::all(),
            |field: TcpModelFieldId| -> (wrapped: Self)
                ensures
                    wrapped == Self::Tcp(field)
                { Self::Tcp(field) },
            Ghost(|field: TcpModelFieldId| Self::Tcp(field)),
        );
        extend_mapped(
            &mut all,
            &IpModelFieldId::all(),
            |field: IpModelFieldId| -> (wrapped: Self)
                ensures
                    wrapped == Self::Ip(field)
                { Self::Ip(field) },
            Ghost(|field: IpModelFieldId| Self::Ip(field)),
        );
        extend_mapped(
            &mut all,
            &Ip6ModelFieldId::all(),
            |field: Ip6ModelFieldId| -> (wrapped: Self)
                ensures
                    wrapped == Self::Ip6(field)
                { Self::Ip6(field) },
            Ghost(|field: Ip6ModelFieldId| Self::Ip6(field)),
        );
        extend_mapped(
            &mut all,
            &IcmpModelFieldId::all(),
            |field: IcmpModelFieldId| -> (wrapped: Self)
                ensures
                    wrapped == Self::Icmp(field)
                { Self::Icmp(field) },
            Ghost(|field: IcmpModelFieldId| Self::Icmp(field)),
        );
        extend_mapped(
            &mut all,
            &Icmp6ModelFieldId::all(),
            |field: Icmp6ModelFieldId| -> (wrapped: Self)
                ensures
                    wrapped == Self::Icmp6(field)
                { Self::Icmp6(field) },
            Ghost(|field: Icmp6ModelFieldId| Self::Icmp6(field)),
        );
        extend_mapped(
            &mut all,
            &UdpModelFieldId::all(),
            |field: UdpModelFieldId| -> (wrapped: Self)
                ensures
                    wrapped == Self::Udp(field)
                { Self::Udp(field) },
            Ghost(|field: UdpModelFieldId| Self::Udp(field)),
        );
        extend_mapped(
            &mut all,
            &Udp6ModelFieldId::all(),
            |field: Udp6ModelFieldId| -> (wrapped: Self)
                ensures
                    wrapped == Self::Udp6(field)
                { Self::Udp6(field) },
            Ghost(|field: Udp6ModelFieldId| Self::Udp6(field)),
        );
        assert(all@ =~= Self::spec_all());
        all
    }

    proof fn lemma_listed(self) {
        let wrap_tcp = |field: TcpModelFieldId| Self::Tcp(field);
        let tcp = TcpModelFieldId::spec_all().map_values(wrap_tcp);
        let wrap_ip = |field: IpModelFieldId| Self::Ip(field);
        let ip = IpModelFieldId::spec_all().map_values(wrap_ip);
        let wrap_ip6 = |field: Ip6ModelFieldId| Self::Ip6(field);
        let ip6 = Ip6ModelFieldId::spec_all().map_values(wrap_ip6);
        let wrap_icmp = |field: IcmpModelFieldId| Self::Icmp(field);
        let icmp = IcmpModelFieldId::spec_all().map_values(wrap_icmp);
        let wrap_icmp6 = |field: Icmp6ModelFieldId| Self::Icmp6(field);
        let icmp6 = Icmp6ModelFieldId::spec_all().map_values(wrap_icmp6);
        let wrap_udp = |field: UdpModelFieldId| Self::Udp(field);
        let udp = UdpModelFieldId::spec_all().map_values(wrap_udp);
        let wrap_udp6 = |field: Udp6ModelFieldId| Self::Udp6(field);
        let udp6 = Udp6ModelFieldId::spec_all().map_values(wrap_udp6);
        lemma_listed_in_concat(tcp, ip);
        lemma_listed_in_concat(tcp + ip, ip6);
        lemma_listed_in_concat(tcp + ip + ip6, icmp);
        lemma_listed_in_concat(tcp + ip + ip6 + icmp, icmp6);
        lemma_listed_in_concat(tcp + ip + ip6 + icmp + icmp6, udp);
        lemma_listed_in_concat(tcp + ip + ip6 + icmp + icmp6 + udp, udp6);
        assert(Self::spec_all() =~= tcp + ip + ip6 + icmp + icmp6 + udp + udp6);
        match self {
            Self::Tcp(field) => {
                field.lemma_listed();
                lemma_listed_in_image(TcpModelFieldId::spec_all(), wrap_tcp);
                assert(wrap_tcp(field) == self);
            },
            Self::Ip(field) => {
                field.lemma_listed();
                lemma_listed_in_image(IpModelFieldId::spec_all(), wrap_ip);
                assert(wrap_ip(field) == self);
            },
            Self::Ip6(field) => {
                field.lemma_listed();
                lemma_listed_in_image(Ip6ModelFieldId::spec_all(), wrap_ip6);
                assert(wrap_ip6(field) == self);
            },
            Self::Icmp(field) => {
                field.lemma_listed();
                lemma_listed_in_image(IcmpModelFieldId::spec_all(), wrap_icmp);
                assert(wrap_icmp(field) == self);
            },
            Self::Icmp6(field) => {
                field.lemma_listed();
                lemma_listed_in_image(Icmp6ModelFieldId::spec_all(), wrap_icmp6);
                assert(wrap_icmp6(field) == self);
            },
            Self::Udp(field) => {
                field.lemma_listed();
                lemma_listed_in_image(UdpModelFieldId::spec_all(), wrap_udp);
                assert(wrap_udp(field) == self);
            },
            Self::Udp6(field) => {
                field.lemma_listed();
                lemma_listed_in_image(Udp6ModelFieldId::spec_all(), wrap_udp6);
                assert(wrap_udp6(field) == self);
            },
        }
    }

    proof fn lemma_names(self, other: Self) {
        lemma_spell_beginning(self.name());
        lemma_spell_beginning(other.name());
        reveal_strlit("tcp.");
        reveal_strlit("ip.");
        reveal_strlit("ip6.");
        reveal_strlit("icmp.");
        reveal_strlit("icmp6.");
        reveal_strlit("udp.");
        reveal_strlit("udp6.");
        match self {
            Self::Tcp(field) => match other {
                Self::Tcp(other_field) => lemma_names_behind("tcp."@, field, other_field),
                _ => lemma_names_behind("tcp."@, field, field),
            },
            Self::Ip(field) => match other {
                Self::Ip(other_field) => lemma_names_behind("ip."@, field, other_field),
                _ => lemma_names_behind("ip."@, field, field),
            },
            Self::Ip6(field) => match other {
                Self::Ip6(other_field) => lemma_names_behind("ip6."@, field, other_field),
                _ => lemma_names_behind("ip6."@, field, field),
            },
            Self::Icmp(field) => match other {
                Self::Icmp(other_field) => lemma_names_behind("icmp."@, field, other_field),
                _ => lemma_names_behind("icmp."@, field, field),
            },
            Self::Icmp6(field) => match other {
                Self::Icmp6(other_field) => lemma_names_behind("icmp6."@, field, other_field),
                _ => lemma_names_behind("icmp6."@, field, field),
            },
            Self::Udp(field) => match other {
                Self::Udp(other_field) => lemma_names_behind("udp."@, field, other_field),
                _ => lemma_names_behind("udp."@, field, field),
            },
            Self::Udp6(field) => match other {
                Self::Udp6(other_field) => lemma_names_behind("udp6."@, field, other_field),
                _ => lemma_names_behind("udp6."@, field, field),
            },
        }
    }
}

impl FieldId for NetworkModelFieldId {

}

/// The sub-models of the network layer.
#[derive(Clone, Copy, Debug, PartialEq, Eq, Hash, Structural)]
pub enum NetworkAggField {
    Ip,
    Ip6,
    Icmp,
    Icmp6,
}

impl Named for NetworkAggField {
    open spec fn name(&self) -> Seq<char> {
        match self {
            Self::Ip => "ip"@,
            Self::Ip6 => "ip6"@,
            Self::Icmp => "icmp"@,
            Self::Icmp6 => "icmp6"@,
        }
    }

    fn to_string(&self) -> String {
        match self {
            Self::Ip => "ip".to_owned(),
            Self::Ip6 => "ip6".to_owned(),
            Self::Icmp => "icmp".to_owned(),
            Self::Icmp6 => "icmp6".to_owned(),
        }
    }
}

impl Catalog for NetworkAggField {
    open spec fn spec_all() -> Seq<Self> {
        seq![Self::Ip, Self::Ip6, Self::Icmp, Self::Icmp6]
    }

    fn all() -> Vec<Self> {
        vec![Self::Ip, Self::Ip6, Self::Icmp, Self::Icmp6]
    }

    proof fn lemma_listed(self) {
        let all = Self::spec_all();
        match self {
            Self::Ip => assert(all[0] == self),
            Self::Ip6 => assert(all[1] == self),
            Self::Icmp => assert(all[2] == self),
            Self::Icmp6 => assert(all[3] == self),
        }
    }

    proof fn lemma_names(self, other: Self) {
        lemma_spell(self.name());
        lemma_spell(other.name());
        reveal_strlit("ip");
        reveal_strlit("ip6");
        reveal_strlit("icmp");
        reveal_strlit("icmp6");
    }
}

impl AggField<NetworkModelFieldId> for NetworkAggField {
    /// Every field of the sub-model. The detail flag has no effect in this
    /// domain.
    open spec fn spec_expand(&self, detail: bool) -> Seq<NetworkModelFieldId> {
        match self {
            Self::Ip => IpModelFieldId::spec_all().map_values(
                |field: IpModelFieldId| NetworkModelFieldId::Ip(field),
            ),
            Self::Ip6 => Ip6ModelFieldId::spec_all().map_values(
                |field: Ip6ModelFieldId| NetworkModelFieldId::Ip6(field),
            ),
            Self::Icmp => IcmpModelFieldId::spec_all().map_values(
                |field: IcmpModelFieldId| NetworkModelFieldId::Icmp(field),
            ),
            Self::Icmp6 => Icmp6ModelFieldId::spec_all().map_values(
                |field: Icmp6ModelFieldId| NetworkModelFieldId::Icmp6(field),
            ),
        }
    }

    fn expand(&self, _detail: bool) -> Vec<NetworkModelFieldId> {
        let fields = match self {
            Self::Ip => mapped(
                &IpModelFieldId::all(),
                |field: IpModelFieldId| -> (wrapped: NetworkModelFieldId)
                    ensures
                        wrapped == NetworkModelFieldId::Ip(field)
                    { NetworkModelFieldId::Ip(field) },
                Ghost(|field: IpModelFieldId| NetworkModelFieldId::Ip(field)),
            ),
            Self::Ip6 => mapped(
                &Ip6ModelFieldId::all(),
                |field: Ip6ModelFieldId| -> (wrapped: NetworkModelFieldId)
                    ensures
                        wrapped == NetworkModelFieldId::Ip6(field)
                    { NetworkModelFieldId::Ip6(field) },
                Ghost(|field: Ip6ModelFieldId| NetworkModelFieldId::Ip6(field)),
            ),
            Self::Icmp => mapped(
                &IcmpModelFieldId::all(),
                |field: IcmpModelFieldId| -> (wrapped: NetworkModelFieldId)
                    ensures
                        wrapped == NetworkModelFieldId::Icmp(field)
                    { NetworkModelFieldId::Icmp(field) },
                Ghost(|field: IcmpModelFieldId| NetworkModelFieldId::Icmp(field)),
            ),
            Self::Icmp6 => mapped(
                &Icmp6ModelFieldId::all(),
                |field: Icmp6ModelFieldId| -> (wrapped: NetworkModelFieldId)
                    ensures
                        wrapped == NetworkModelFieldId::Icmp6(field)
                    { NetworkModelFieldId::Icmp6(field) },
                Ghost(|field: Icmp6ModelFieldId| NetworkModelFieldId::Icmp6(field)),
            ),
        };
        proof {
            lemma_all_listed(fields@);
        }
        fields
    }
}

/// In the network domain the detail flag changes no group: the curated
/// selection of every group is its full selection.
pub proof fn lemma_network_detail_has_no_effect(agg: NetworkAggField)
    ensures
        agg.spec_expand(false) == agg.spec_expand(true),
{
}

/// In the network domain no name stands for two things: the names of the
/// common fields, of the groups and of the leaf fields are all apart.
pub proof fn lemma_network_names_apart()
    ensures
        names_apart::<NetworkModelFieldId, NetworkAggField>(),
{
    reveal_strlit("timestamp");
    reveal_strlit("datetime");
    reveal_strlit("ip");
    reveal_strlit("ip6");
    reveal_strlit("icmp");
    reveal_strlit("icmp6");
    reveal_strlit("tcp.");
    reveal_strlit("ip.");
    reveal_strlit("ip6.");
    reveal_strlit("icmp.");
    reveal_strlit("icmp6.");
    reveal_strlit("udp.");
    reveal_strlit("udp6.");
    assert forall|common: CommonField, agg: NetworkAggField| common.name() != agg.name() by {
        lemma_spell(common.name());
        lemma_spell(agg.name());
    }
    assert forall|common: CommonField, field: NetworkModelFieldId| common.name() != field.name() by {
        lemma_spell(common.name());
        lemma_spell_beginning(field.name());
    }
    assert forall|agg: NetworkAggField, field: NetworkModelFieldId| agg.name() != field.name() by {
        lemma_spell(agg.name());
        lemma_spell_beginning(field.name());
    }
}

pub type NetworkOptionField = DumpOptionField<NetworkModelFieldId, NetworkAggField>;

/// The selection that is shown when the user gives none.
pub open spec fn spec_default_network_fields() -> Seq<NetworkOptionField> {
    seq![
        DumpOptionField::Unit(DumpField::Common(CommonField::Datetime)),
        DumpOptionField::Agg(NetworkAggField::Ip),
        DumpOptionField::Agg(NetworkAggField::Ip6),
        DumpOptionField::Agg(NetworkAggField::Icmp),
        DumpOptionField::Agg(NetworkAggField::Icmp6),
        DumpOptionField::Unit(DumpField::Common(CommonField::Timestamp)),
    ]
}

pub fn default_network_fields() -> (r: Vec<NetworkOptionField>)
    ensures
        r@ == spec_default_network_fields(),
{
    vec![
        DumpOptionField::Unit(DumpField::Common(CommonField::Datetime)),
        DumpOptionField::Agg(NetworkAggField::Ip),
        DumpOptionField::Agg(NetworkAggField::Ip6),
        DumpOptionField::Agg(NetworkAggField::Icmp),
        DumpOptionField::Agg(NetworkAggField::Icmp6),
        DumpOptionField::Unit(DumpField::Common(CommonField::Timestamp)),
    ]
}

pub const NETWORK_ABOUT: &'static str = "Dump the network layer stats including ip and icmp";

pub const NETWORK_EXAMPLES: &'static str =
    "Example:\n\
     \n\
     $ below dump network -b \"08:30:00\" -e \"08:30:30\" -f ip ip6 -O json\n\
     \n";

/// The long description of the network command.
pub open spec fn spec_network_long_about() -> Seq<char> {
    spec_long_about::<NetworkModelFieldId, NetworkAggField>(
        NETWORK_ABOUT@,
        DETAIL_NO_EFFECT@,
        spec_default_network_fields(),
        NETWORK_EXAMPLES@,
    )
}

pub fn network_long_about() -> (r: String)
    ensures
        r@ == spec_network_long_about(),
{
    long_about::<NetworkModelFieldId, NetworkAggField>(
        NETWORK_ABOUT,
        DETAIL_NO_EFFECT,
        default_network_fields().as_slice(),
        NETWORK_EXAMPLES,
    )
}

/// The sub-models of the transport layer.
#[derive(Clone, Copy, Debug, PartialEq, Eq, Hash, Structural)]
pub enum TransportAggField {
    Tcp,
    Udp,
    Udp6,
}

impl Named for TransportAggField {
    open spec fn name(&self) -> Seq<char> {
        match self {
            Self::Tcp => "tcp"@,
            Self::Udp => "udp"@,
            Self::Udp6 => "udp6"@,
        }
    }

    fn to_string(&self) -> String {
        match self {
            Self::Tcp => "tcp".to_owned(),
            Self::Udp => "udp".to_owned(),
            Self::Udp6 => "udp6".to_owned(),
        }
    }
}

impl Catalog for TransportAggField {
    open spec fn spec_all() -> Seq<Self> {
        seq![Self::Tcp, Self::Udp, Self::Udp6]
    }

    fn all() -> Vec<Self> {
        vec![Self::Tcp, Self::Udp, Self::Udp6]
    }

    proof fn lemma_listed(self) {
        let all = Self::spec_all();
        match self {
            Self::Tcp => assert(all[0] == self),
            Self::Udp => assert(all[1] == self),
            Self::Udp6 => assert(all[2] == self),
        }
    }

    proof fn lemma_names(self, other: Self) {
        lemma_spell(self.name());
        lemma_spell(other.name());
        reveal_strlit("tcp");
        reveal_strlit("udp");
        reveal_strlit("udp6");
    }
}

impl AggField<NetworkModelFieldId> for TransportAggField {
    /// Every field of the sub-model. The detail flag has no effect in this
    /// domain.
    open spec fn spec_expand(&self, detail: bool) -> Seq<NetworkModelFieldId> {
        match self {
            Self::Tcp => TcpModelFieldId::spec_all().map_values(
                |field: TcpModelFieldId| NetworkModelFieldId::Tcp(field),
            ),
            Self::Udp => UdpModelFieldId::spec_all().map_values(
                |field: UdpModelFieldId| NetworkModelFieldId::Udp(field),
            ),
            Self::Udp6 => Udp6ModelFieldId::spec_all().map_values(
                |field: Udp6ModelFieldId| NetworkModelFieldId::Udp6(field),
            ),
        }
    }

    fn expand(&self, _detail: bool) -> Vec<NetworkModelFieldId> {
        let fields = match self {
            Self::Tcp => mapped(
                &TcpModelFieldId::all(),
                |field: TcpModelFieldId| -> (wrapped: NetworkModelFieldId)
                    ensures
                        wrapped == NetworkModelFieldId::Tcp(field)
                    { NetworkModelFieldId::Tcp(field) },
                Ghost(|field: TcpModelFieldId| NetworkModelFieldId::Tcp(field)),
            ),
            Self::Udp => mapped(
                &UdpModelFieldId::all(),
                |field: UdpModelFieldId| -> (wrapped: NetworkModelFieldId)
                    ensures
                        wrapped == NetworkModelFieldId::Udp(field)
                    { NetworkModelFieldId::Udp(field) },
                Ghost(|field: UdpModelFieldId| NetworkModelFieldId::Udp(field)),
            ),
            Self::Udp6 => mapped(
                &Udp6ModelFieldId::all(),
                |field: Udp6ModelFieldId| -> (wrapped: NetworkModelFieldId)
                    ensures
                        wrapped == NetworkModelFieldId::Udp6(field)
                    { NetworkModelFieldId::Udp6(field) },
                Ghost(|field: Udp6ModelFieldId| NetworkModelFieldId::Udp6(field)),
            ),
        };
        proof {
            lemma_all_listed(fields@);
        }
        fields
    }
}

/// In the transport domain the detail flag changes no group: the curated
/// selection of every group is its full selection.
pub proof fn lemma_transport_detail_has_no_effect(agg: TransportAggField)
    ensures
        agg.spec_expand(false) == agg.spec_expand(true),
{
}

/// In the transport domain no name stands for two things: the names of the
/// common fields, of the groups and of the leaf fields are all apart.
pub proof fn lemma_transport_names_apart()
    ensures
        names_apart::<NetworkModelFieldId, TransportAggField>(),
{
    reveal_strlit("timestamp");
    reveal_strlit("datetime");
    reveal_strlit("tcp");
    reveal_strlit("udp");
    reveal_strlit("udp6");
    reveal_strlit("tcp.");
    reveal_strlit("ip.");
    reveal_strlit("ip6.");
    reveal_strlit("icmp.");
    reveal_strlit("icmp6.");
    reveal_strlit("udp.");
    reveal_strlit("udp6.");
    assert forall|common: CommonField, agg: TransportAggField| common.name() != agg.name() by {
        lemma_spell(common.name());
        lemma_spell(agg.name());
    }
    assert forall|common: CommonField, field: NetworkModelFieldId| common.name() != field.name() by {
        lemma_spell(common.name());
        lemma_spell_beginning(field.name());
    }
    assert forall|agg: TransportAggField, field: NetworkModelFieldId| agg.name() != field.name() by {
        lemma_spell(agg.name());
        lemma_spell_beginning(field.name());
    }
}

pub type TransportOptionField = DumpOptionField<NetworkModelFieldId, TransportAggField>;

/// The selection that is shown when the user gives none.
pub open spec fn spec_default_transport_fields() -> Seq<TransportOptionField> {
    seq![
        DumpOptionField::Unit(DumpField::Common(CommonField::Datetime)),
        DumpOptionField::Agg(TransportAggField::Tcp),
        DumpOptionField::Agg(TransportAggField::Udp),
        DumpOptionField::Agg(TransportAggField::Udp6),
        DumpOptionField::Unit(DumpField::Common(CommonField::Timestamp)),
    ]
}

pub fn default_transport_fields() -> (r: Vec<TransportOptionField>)
    ensures
        r@ == spec_default_transport_fields(),
{
    vec![
        DumpOptionField::Unit(DumpField::Common(CommonField::Datetime)),
        DumpOptionField::Agg(TransportAggField::Tcp),
        DumpOptionField::Agg(TransportAggField::Udp),
        DumpOptionField::Agg(TransportAggField::Udp6),
        DumpOptionField::Unit(DumpField::Common(CommonField::Timestamp)),
    ]
}

pub const TRANSPORT_ABOUT: &'static str = "Dump the transport layer stats including tcp and udp";

pub const TRANSPORT_EXAMPLES: &'static str =
    "Example:\n\
     \n\
     $ below dump transport -b \"08:30:00\" -e \"08:30:30\" -f tcp udp -O json\n\
     \n";

/// The long description of the transport command.
pub open spec fn spec_transport_long_about() -> Seq<char> {
    spec_long_about::<NetworkModelFieldId, TransportAggField>(
        TRANSPORT_ABOUT@,
        DETAIL_NO_EFFECT@,
        spec_default_transport_fields(),
        TRANSPORT_EXAMPLES@,
    )
}

pub fn transport_long_about() -> (r: String)
    ensures
        r@ == spec_transport_long_about(),
{
    long_about::<NetworkModelFieldId, TransportAggField>(
        TRANSPORT_ABOUT,
        DETAIL_NO_EFFECT,
        default_transport_fields().as_slice(),
        TRANSPORT_EXAMPLES,
    )
}

} // verus!
