//! The iface domain: one row per network interface.

use crate::catalog::{lemma_all_listed, Catalog, Named};
use crate::field::{names_apart, AggField, CommonField, DumpField, DumpOptionField, FieldId};
use crate::help::{long_about, spec_long_about, DETAIL_NO_EFFECT};
use crate::text::lemma_spell;
use vstd::prelude::*;

verus! {

/// Leaf fields of one network interface.
#[derive(Clone, Copy, Debug, PartialEq, Eq, Hash, Structural)]
pub enum SingleNetModelFieldId {
    Interface,
    RxBytesPerSec,
    TxBytesPerSec,
    ThroughputPerSec,
    RxPacketsPerSec,
    TxPacketsPerSec,
    Collisions,
    Multicast,
    RxBytes,
    RxCompressed,
    RxCrcErrors,
    RxDropped,
    RxErrors,
    RxFifoErrors,
    RxFrameErrors,
    RxLengthErrors,
    RxMissedErrors,
    RxNohandler,
    RxOverErrors,
    RxPackets,
    TxAbortedErrors,
    TxBytes,
    TxCarrierErrors,
    TxCompressed,
    TxDropped,
    TxErrors,
    TxFifoErrors,
    TxHeartbeatErrors,
    TxPackets,
    TxWindowErrors,
}

impl Named for SingleNetModelFieldId {
    open spec fn name(&self) -> Seq<char> {
        match self {
            Self::Interface => "interface"@,
            Self::RxBytesPerSec => "rx_bytes_per_sec"@,
            Self::TxBytesPerSec => "tx_bytes_per_sec"@,
            Self::ThroughputPerSec => "throughput_per_sec"@,
            Self::RxPacketsPerSec => "rx_packets_per_sec"@,
            Self::TxPacketsPerSec => "tx_packets_per_sec"@,
            Self::Collisions => "collisions"@,
            Self::Multicast => "multicast"@,
            Self::RxBytes => "rx_bytes"@,
            Self::RxCompressed => "rx_compressed"@,
            Self::RxCrcErrors => "rx_crc_errors"@,
            Self::RxDropped => "rx_dropped"@,
            Self::RxErrors => "rx_errors"@,
            Self::RxFifoErrors => "rx_fifo_errors"@,
            Self::RxFrameErrors => "rx_frame_errors"@,
            Self::RxLengthErrors => "rx_length_errors"@,
            Self::RxMissedErrors => "rx_missed_errors"@,
            Self::RxNohandler => "rx_nohandler"@,
            Self::RxOverErrors => "rx_over_errors"@,
            Self::RxPackets => "rx_packets"@,
            Self::TxAbortedErrors => "tx_aborted_errors"@,
            Self::TxBytes => "tx_bytes"@,
            Self::TxCarrierErrors => "tx_carrier_errors"@,
            Self::TxCompressed => "tx_compressed"@,
            Self::TxDropped => "tx_dropped"@,
            Self::TxErrors => "tx_errors"@,
            Self::TxFifoErrors => "tx_fifo_errors"@,
            Self::TxHeartbeatErrors => "tx_heartbeat_errors"@,
            Self::TxPackets => "tx_packets"@,
            Self::TxWindowErrors => "tx_window_errors"@,
        }
    }

    fn to_string(&self) -> String {
        match self {
            Self::Interface => "interface".to_owned(),
            Self::RxBytesPerSec => "rx_bytes_per_sec".to_owned(),
            Self::TxBytesPerSec => "tx_bytes_per_sec".to_owned(),
            Self::ThroughputPerSec => "throughput_per_sec".to_owned(),
            Self::RxPacketsPerSec => "rx_packets_per_sec".to_owned(),
            Self::TxPacketsPerSec => "tx_packets_per_sec".to_owned(),
            Self::Collisions => "collisions".to_owned(),
            Self::Multicast => "multicast".to_owned(),
            Self::RxBytes => "rx_bytes".to_owned(),
            Self::RxCompressed => "rx_compressed".to_owned(),
            Self::RxCrcErrors => "rx_crc_errors".to_owned(),
            Self::RxDropped => "rx_dropped".to_owned(),
            Self::RxErrors => "rx_errors".to_owned(),
            Self::RxFifoErrors => "rx_fifo_errors".to_owned(),
            Self::RxFrameErrors => "rx_frame_errors".to_owned(),
            Self::RxLengthErrors => "rx_length_errors".to_owned(),
            Self::RxMissedErrors => "rx_missed_errors".to_owned(),
            Self::RxNohandler => "rx_nohandler".to_owned(),
            Self::RxOverErrors => "rx_over_errors".to_owned(),
            Self::RxPackets => "rx_packets".to_owned(),
            Self::TxAbortedErrors => "tx_aborted_errors".to_owned(),
            Self::TxBytes => "tx_bytes".to_owned(),
            Self::TxCarrierErrors => "tx_carrier_errors".to_owned(),
            Self::TxCompressed => "tx_compressed".to_owned(),
            Self::TxDropped => "tx_dropped".to_owned(),
            Self::TxErrors => "tx_errors".to_owned(),
            Self::TxFifoErrors => "tx_fifo_errors".to_owned(),
            Self::TxHeartbeatErrors => "tx_heartbeat_errors".to_owned(),
            Self::TxPackets => "tx_packets".to_owned(),
            Self::TxWindowErrors => "tx_window_errors".to_owned(),
        }
    }
}

impl Catalog for SingleNetModelFieldId {
    open spec fn spec_all() -> Seq<Self> {
        seq![
            Self::Interface,
            Self::RxBytesPerSec,
            Self::TxBytesPerSec,
            Self::ThroughputPerSec,
            Self::RxPacketsPerSec,
            Self::TxPacketsPerSec,
            Self::Collisions,
            Self::Multicast,
            Self::RxBytes,
            Self::RxCompressed,
            Self::RxCrcErrors,
            Self::RxDropped,
            Self::RxErrors,
            Self::RxFifoErrors,
            Self::RxFrameErrors,
            Self::RxLengthErrors,
            Self::RxMissedErrors,
            Self::RxNohandler,
            Self::RxOverErrors,
            Self::RxPackets,
            Self::TxAbortedErrors,
            Self::TxBytes,
            Self::TxCarrierErrors,
            Self::TxCompressed,
            Self::TxDropped,
            Self::TxErrors,
            Self::TxFifoErrors,
            Self::TxHeartbeatErrors,
            Self::TxPackets,
            Self::TxWindowErrors,
        ]
    }

    fn all() -> Vec<Self> {
        vec![
            Self::Interface,
            Self::RxBytesPerSec,
            Self::TxBytesPerSec,
            Self::ThroughputPerSec,
            Self::RxPacketsPerSec,
            Self::TxPacketsPerSec,
            Self::Collisions,
            Self::Multicast,
            Self::RxBytes,
            Self::RxCompressed,
            Self::RxCrcErrors,
            Self::RxDropped,
            Self::RxErrors,
            Self::RxFifoErrors,
            Self::RxFrameErrors,
            Self::RxLengthErrors,
            Self::RxMissedErrors,
            Self::RxNohandler,
            Self::RxOverErrors,
            Self::RxPackets,
            Self::TxAbortedErrors,
            Self::TxBytes,
            Self::TxCarrierErrors,
            Self::TxCompressed,
            Self::TxDropped,
            Self::TxErrors,
            Self::TxFifoErrors,
            Self::TxHeartbeatErrors,
            Self::TxPackets,
            Self::TxWindowErrors,
        ]
    }

    proof fn lemma_listed(self) {
        let all = Self::spec_all();
        match self {
            Self::Interface => assert(all[0] == self),
            Self::RxBytesPerSec => assert(all[1] == self),
            Self::TxBytesPerSec => assert(all[2] == self),
            Self::ThroughputPerSec => assert(all[3] == self),
            Self::RxPacketsPerSec => assert(all[4] == self),
            Self::TxPacketsPerSec => assert(all[5] == self),
            Self::Collisions => assert(all[6] == self),
            Self::Multicast => assert(all[7] == self),
            Self::RxBytes => assert(all[8] == self),
            Self::RxCompressed => assert(all[9] == self),
            Self::RxCrcErrors => assert(all[10] == self),
            Self::RxDropped => assert(all[11] == self),
            Self::RxErrors => assert(all[12] == self),
            Self::RxFifoErrors => assert(all[13] == self),
            Self::RxFrameErrors => assert(all[14] == self),
            Self::RxLengthErrors => assert(all[15] == self),
            Self::RxMissedErrors => assert(all[16] == self),
            Self::RxNohandler => assert(all[17] == self),
            Self::RxOverErrors => assert(all[18] == self),
            Self::RxPackets => assert(all[19] == self),
            Self::TxAbortedErrors => assert(all[20] == self),
            Self::TxBytes => assert(all[21] == self),
            Self::TxCarrierErrors => assert(all[22] == self),
            Self::TxCompressed => assert(all[23] == self),
            Self::TxDropped => assert(all[24] == self),
            Self::TxErrors => assert(all[25] == self),
            Self::TxFifoErrors => assert(all[26] == self),
            Self::TxHeartbeatErrors => assert(all[27] == self),
            Self::TxPackets => assert(all[28] == self),
            Self::TxWindowErrors => assert(all[29] == self),
        }
    }

    proof fn lemma_names(self, other: Self) {
        lemma_spell(self.name());
        lemma_spell(other.name());
        reveal_strlit("interface");
        reveal_strlit("rx_bytes_per_sec");
        reveal_strlit("tx_bytes_per_sec");
        reveal_strlit("throughput_per_sec");
        reveal_strlit("rx_packets_per_sec");
        reveal_strlit("tx_packets_per_sec");
        reveal_strlit("collisions");
        reveal_strlit("multicast");
        reveal_strlit("rx_bytes");
        reveal_strlit("rx_compressed");
        reveal_strlit("rx_crc_errors");
        reveal_strlit("rx_dropped");
        reveal_strlit("rx_errors");
        reveal_strlit("rx_fifo_errors");
        reveal_strlit("rx_frame_errors");
        reveal_strlit("rx_length_errors");
        reveal_strlit("rx_missed_errors");
        reveal_strlit("rx_nohandler");
        reveal_strlit("rx_over_errors");
        reveal_strlit("rx_packets");
        reveal_strlit("tx_aborted_errors");
        reveal_strlit("tx_bytes");
        reveal_strlit("tx_carrier_errors");
        reveal_strlit("tx_compressed");
        reveal_strlit("tx_dropped");
        reveal_strlit("tx_errors");
        reveal_strlit("tx_fifo_errors");
        reveal_strlit("tx_heartbeat_errors");
        reveal_strlit("tx_packets");
        reveal_strlit("tx_window_errors");
    }
}

impl FieldId for SingleNetModelFieldId {

}

/// Groups of the fields of a network interface.
#[derive(Clone, Copy, Debug, PartialEq, Eq, Hash, Structural)]
pub enum IfaceAggField {
    Rate,
    Rx,
    Tx,
}

impl Named for IfaceAggField {
    open spec fn name(&self) -> Seq<char> {
        match self {
            Self::Rate => "rate"@,
            Self::Rx => "rx"@,
            Self::Tx => "tx"@,
        }
    }

    fn to_string(&self) -> String {
        match self {
            Self::Rate => "rate".to_owned(),
            Self::Rx => "rx".to_owned(),
            Self::Tx => "tx".to_owned(),
        }
    }
}

impl Catalog for IfaceAggField {
    open spec fn spec_all() -> Seq<Self> {
        seq![Self::Rate, Self::Rx, Self::Tx]
    }

    fn all() -> Vec<Self> {
        vec![Self::Rate, Self::Rx, Self::Tx]
    }

    proof fn lemma_listed(self) {
        let all = Self::spec_all();
        match self {
            Self::Rate => assert(all[0] == self),
            Self::Rx => assert(all[1] == self),
            Self::Tx => assert(all[2] == self),
        }
    }

    proof fn lemma_names(self, other: Self) {
        lemma_spell(self.name());
        lemma_spell(other.name());
        reveal_strlit("rate");
        reveal_strlit("rx");
        reveal_strlit("tx");
    }
}

impl AggField<SingleNetModelFieldId> for IfaceAggField {
    /// The detail flag has no effect in this domain.
    open spec fn spec_expand(&self, detail: bool) -> Seq<SingleNetModelFieldId> {
        match self {
            Self::Rate => seq![
                SingleNetModelFieldId::RxBytesPerSec,
                SingleNetModelFieldId::TxBytesPerSec,
                SingleNetModelFieldId::ThroughputPerSec,
                SingleNetModelFieldId::RxPacketsPerSec,
                SingleNetModelFieldId::TxPacketsPerSec,
            ],
            Self::Rx => seq![
                SingleNetModelFieldId::RxBytes,
                SingleNetModelFieldId::RxCompressed,
                SingleNetModelFieldId::RxCrcErrors,
                SingleNetModelFieldId::RxDropped,
                SingleNetModelFieldId::RxErrors,
                SingleNetModelFieldId::RxFifoErrors,
                SingleNetModelFieldId::RxFrameErrors,
                SingleNetModelFieldId::RxLengthErrors,
                SingleNetModelFieldId::RxMissedErrors,
                SingleNetModelFieldId::RxNohandler,
                SingleNetModelFieldId::RxOverErrors,
                SingleNetModelFieldId::RxPackets,
            ],
            Self::Tx => seq![
                SingleNetModelFieldId::TxAbortedErrors,
                SingleNetModelFieldId::TxBytes,
                SingleNetModelFieldId::TxCarrierErrors,
                SingleNetModelFieldId::TxCompressed,
                SingleNetModelFieldId::TxDropped,
                SingleNetModelFieldId::TxErrors,
                SingleNetModelFieldId::TxFifoErrors,
                SingleNetModelFieldId::TxHeartbeatErrors,
                SingleNetModelFieldId::TxPackets,
                SingleNetModelFieldId::TxWindowErrors,
            ],
        }
    }

    fn expand(&self, _detail: bool) -> Vec<SingleNetModelFieldId> {
        let fields = match self {
            Self::Rate => vec![
                SingleNetModelFieldId::RxBytesPerSec,
                SingleNetModelFieldId::TxBytesPerSec,
                SingleNetModelFieldId::ThroughputPerSec,
                SingleNetModelFieldId::RxPacketsPerSec,
                SingleNetModelFieldId::TxPacketsPerSec,
            ],
            Self::Rx => vec![
                SingleNetModelFieldId::RxBytes,
                SingleNetModelFieldId::RxCompressed,
                SingleNetModelFieldId::RxCrcErrors,
                SingleNetModelFieldId::RxDropped,
                SingleNetModelFieldId::RxErrors,
                SingleNetModelFieldId::RxFifoErrors,
                SingleNetModelFieldId::RxFrameErrors,
                SingleNetModelFieldId::RxLengthErrors,
                SingleNetModelFieldId::RxMissedErrors,
                SingleNetModelFieldId::RxNohandler,
                SingleNetModelFieldId::RxOverErrors,
                SingleNetModelFieldId::RxPackets,
            ],
            Self::Tx => vec![
                SingleNetModelFieldId::TxAbortedErrors,
                SingleNetModelFieldId::TxBytes,
                SingleNetModelFieldId::TxCarrierErrors,
                SingleNetModelFieldId::TxCompressed,
                SingleNetModelFieldId::TxDropped,
                SingleNetModelFieldId::TxErrors,
                SingleNetModelFieldId::TxFifoErrors,
                SingleNetModelFieldId::TxHeartbeatErrors,
                SingleNetModelFieldId::TxPackets,
                SingleNetModelFieldId::TxWindowErrors,
            ],
        };
        proof {
            lemma_all_listed(fields@);
        }
        fields
    }
}

/// In the iface domain the detail flag changes no group: the curated
/// selection of every group is its full selection.
pub proof fn lemma_iface_detail_has_no_effect(agg: IfaceAggField)
    ensures
        agg.spec_expand(false) == agg.spec_expand(true),
{
}

/// In the iface domain no name stands for two things: the names of the
/// common fields, of the groups and of the leaf fields are all apart.
pub proof fn lemma_iface_names_apart()
    ensures
        names_apart::<SingleNetModelFieldId, IfaceAggField>(),
{
    reveal_strlit("timestamp");
    reveal_strlit("datetime");
    reveal_strlit("rate");
    reveal_strlit("rx");
    reveal_strlit("tx");
    reveal_strlit("interface");
    reveal_strlit("rx_bytes_per_sec");
    reveal_strlit("tx_bytes_per_sec");
    reveal_strlit("throughput_per_sec");
    reveal_strlit("rx_packets_per_sec");
    reveal_strlit("tx_packets_per_sec");
    reveal_strlit("collisions");
    reveal_strlit("multicast");
    reveal_strlit("rx_bytes");
    reveal_strlit("rx_compressed");
    reveal_strlit("rx_crc_errors");
    reveal_strlit("rx_dropped");
    reveal_strlit("rx_errors");
    reveal_strlit("rx_fifo_errors");
    reveal_strlit("rx_frame_errors");
    reveal_strlit("rx_length_errors");
    reveal_strlit("rx_missed_errors");
    reveal_strlit("rx_nohandler");
    reveal_strlit("rx_over_errors");
    reveal_strlit("rx_packets");
    reveal_strlit("tx_aborted_errors");
    reveal_strlit("tx_bytes");
    reveal_strlit("tx_carrier_errors");
    reveal_strlit("tx_compressed");
    reveal_strlit("tx_dropped");
    reveal_strlit("tx_errors");
    reveal_strlit("tx_fifo_errors");
    reveal_strlit("tx_heartbeat_errors");
    reveal_strlit("tx_packets");
    reveal_strlit("tx_window_errors");
    assert forall|common: CommonField, agg: IfaceAggField| common.name() != agg.name() by {
        lemma_spell(common.name());
        lemma_spell(agg.name());
    }
    assert forall|common: CommonField, field: SingleNetModelFieldId| common.name() != field.name() by {
        lemma_spell(common.name());
        lemma_spell(field.name());
    }
    assert forall|agg: IfaceAggField, field: SingleNetModelFieldId| agg.name() != field.name() by {
        lemma_spell(agg.name());
        lemma_spell(field.name());
    }
}

pub type IfaceOptionField = DumpOptionField<SingleNetModelFieldId, IfaceAggField>;

/// The selection that is shown when the user gives none.
pub open spec fn spec_default_iface_fields() -> Seq<IfaceOptionField> {
    seq![
        DumpOptionField::Unit(DumpField::Common(CommonField::Datetime)),
        DumpOptionField::Unit(DumpField::FieldId(SingleNetModelFieldId::Collisions)),
        DumpOptionField::Unit(DumpField::FieldId(SingleNetModelFieldId::Multicast)),
        DumpOptionField::Unit(DumpField::FieldId(SingleNetModelFieldId::Interface)),
        DumpOptionField::Agg(IfaceAggField::Rate),
        DumpOptionField::Agg(IfaceAggField::Rx),
        DumpOptionField::Agg(IfaceAggField::Tx),
        DumpOptionField::Unit(DumpField::Common(CommonField::Timestamp)),
    ]
}

pub fn default_iface_fields() -> (r: Vec<IfaceOptionField>)
    ensures
        r@ == spec_default_iface_fields(),
{
    vec![
        DumpOptionField::Unit(DumpField::Common(CommonField::Datetime)),
        DumpOptionField::Unit(DumpField::FieldId(SingleNetModelFieldId::Collisions)),
        DumpOptionField::Unit(DumpField::FieldId(SingleNetModelFieldId::Multicast)),
        DumpOptionField::Unit(DumpField::FieldId(SingleNetModelFieldId::Interface)),
        DumpOptionField::Agg(IfaceAggField::Rate),
        DumpOptionField::Agg(IfaceAggField::Rx),
        DumpOptionField::Agg(IfaceAggField::Tx),
        DumpOptionField::Unit(DumpField::Common(CommonField::Timestamp)),
    ]
}

pub const IFACE_ABOUT: &'static str = "Dump the link layer iface stats";

pub const IFACE_EXAMPLES: &'static str =
    "Simple example:\n\
     \n\
     $ below dump iface -b \"08:30:00\" -e \"08:30:30\" -f interface rate -O csv\n\
     \n\
     Output stats for all iface stats matching pattern \"eth*\" for time slices\n\
     from 08:30:00 to 08:30:30:\n\
     \n\
     $ below dump iface -b \"08:30:00\" -e \"08:30:30\" -s interface -F eth* -O json\n\
     \n";

/// The long description of the iface command.
pub open spec fn spec_iface_long_about() -> Seq<char> {
    spec_long_about::<SingleNetModelFieldId, IfaceAggField>(
        IFACE_ABOUT@,
        DETAIL_NO_EFFECT@,
        spec_default_iface_fields(),
        IFACE_EXAMPLES@,
    )
}

pub fn iface_long_about() -> (r: String)
    ensures
        r@ == spec_iface_long_about(),
{
    long_about::<SingleNetModelFieldId, IfaceAggField>(
        IFACE_ABOUT,
        DETAIL_NO_EFFECT,
        default_iface_fields().as_slice(),
        IFACE_EXAMPLES,
    )
}

} // verus!
