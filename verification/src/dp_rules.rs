//! The forwarding rules as the UPF data plane holds them (TS 29.244 5.2):
//! packet detection, forwarding, QoS enforcement, usage reporting and
//! buffering, with the 5-tuple a packet is matched on.

use vstd::prelude::*;
use crate::wire::{u16_at, u32_at, read_u16, read_u32};
use crate::ip_qos::{qfi_to_dscp, dscp_of_qfi, is_xr_5qi};

verus! {

/// FAR Apply Action: drop.
pub const FAR_ACTION_DROP: u16 = 0x0001;

/// FAR Apply Action: forward.
pub const FAR_ACTION_FORW: u16 = 0x0002;

/// FAR Apply Action: buffer.
pub const FAR_ACTION_BUFF: u16 = 0x0004;

/// FAR Apply Action: notify the CP function.
pub const FAR_ACTION_NOCP: u16 = 0x0008;

/// Source interface: Access (uplink, from the UE through the gNB).
pub const SRC_INTF_ACCESS: u8 = 0;

/// Source interface: Core (downlink, from the data network).
pub const SRC_INTF_CORE: u8 = 1;

/// Downlink buffer depth, in packets, when no BAR gives one.
pub const DEFAULT_DL_BUFFER_PACKETS: usize = 512;

/// A compiled SDF filter (an IPFilterRule, TS 29.212 5.4.2): the protocol
/// (0 for any), the source and destination prefixes when given, and the
/// source and destination port ranges when given.
#[derive(Debug, Clone, Copy, Default)]
pub struct SdfRule {
    pub proto: u8,
    pub ipv4_src: bool,
    pub src_addr: u32,
    pub src_mask: u32,
    pub ipv4_dst: bool,
    pub dst_addr: u32,
    pub dst_mask: u32,
    /// (low, high), inclusive
    pub src_ports: Option<(u16, u16)>,
    /// (low, high), inclusive
    pub dst_ports: Option<(u16, u16)>,
}

/// The 5-tuple of an IPv4 packet.
#[derive(Debug, Clone, Copy, PartialEq, Eq, Structural)]
pub struct PacketTuple {
    pub src_ip: u32,
    pub dst_ip: u32,
    pub protocol: u8,
    pub src_port: u16,
    pub dst_port: u16,
}

/// Whether a port lies in a range, when one is given.
pub open spec fn port_in(port: u16, range: Option<(u16, u16)>) -> bool {
    match range {
        Some((low, high)) => low <= port <= high,
        None => true,
    }
}

/// Whether a packet's 5-tuple satisfies an SDF filter.
pub open spec fn tuple_matches(t: PacketTuple, r: SdfRule) -> bool {
    &&& (r.proto == 0 || r.proto == t.protocol)
    &&& (r.ipv4_src ==> t.src_ip & r.src_mask == r.src_addr & r.src_mask)
    &&& (r.ipv4_dst ==> t.dst_ip & r.dst_mask == r.dst_addr & r.dst_mask)
    &&& port_in(t.src_port, r.src_ports)
    &&& port_in(t.dst_port, r.dst_ports)
}

/// The 5-tuple read from an IPv4 packet: `None` under 20 octets. The ports
/// are read for TCP and UDP when they fit after the IHL-derived header,
/// and are 0 otherwise.
pub open spec fn tuple_of(p: Seq<u8>) -> Option<PacketTuple> {
    if p.len() < 20 {
        None
    } else {
        let ihl = (p[0] & 0x0F) as int * 4;
        let has_ports = (p[9] == 6 || p[9] == 17) && p.len() >= ihl + 4;
        Some(
            PacketTuple {
                src_ip: u32_at(p, 12),
                dst_ip: u32_at(p, 16),
                protocol: p[9],
                src_port: if has_ports { u16_at(p, ihl) } else { 0 },
                dst_port: if has_ports { u16_at(p, ihl + 2) } else { 0 },
            },
        )
    }
}

impl PacketTuple {
    /// Reads the 5-tuple of an IPv4 packet.
    pub fn from_ipv4_packet(ip_payload: &[u8]) -> (r: Option<Self>)
        ensures
            r == tuple_of(ip_payload@),
    {
        if ip_payload.len() < 20 {
            return None;
        }
        let ihl = ((ip_payload[0] & 0x0F) as usize) * 4;
        let protocol = ip_payload[9];
        let src_ip = read_u32(ip_payload, 12);
        let dst_ip = read_u32(ip_payload, 16);
        let (src_port, dst_port) = if (protocol == 6 || protocol == 17) && ip_payload.len() >= ihl + 4 {
            (read_u16(ip_payload, ihl), read_u16(ip_payload, ihl + 2))
        } else {
            (0, 0)
        };
        Some(PacketTuple { src_ip, dst_ip, protocol, src_port, dst_port })
    }

    /// Whether this packet satisfies an SDF filter.
    pub fn matches_rule(&self, rule: &SdfRule) -> (r: bool)
        ensures
            r == tuple_matches(*self, *rule),
    {
        if rule.proto != 0 && rule.proto != self.protocol {
            return false;
        }
        if rule.ipv4_src && (self.src_ip & rule.src_mask) != (rule.src_addr & rule.src_mask) {
            return false;
        }
        if rule.ipv4_dst && (self.dst_ip & rule.dst_mask) != (rule.dst_addr & rule.dst_mask) {
            return false;
        }
        if let Some((low, high)) = rule.src_ports {
            if self.src_port < low || self.src_port > high {
                return false;
            }
        }
        if let Some((low, high)) = rule.dst_ports {
            if self.dst_port < low || self.dst_port > high {
                return false;
            }
        }
        true
    }
}

/// A packet detection rule as the data plane matches it.
#[derive(Debug, Clone)]
pub struct DataPlanePdr {
    pub pdr_id: u16,
    pub precedence: u32,
    pub source_interface: u8,
    pub far_id: Option<u32>,
    pub qer_id: Option<u32>,
    pub urr_ids: Vec<u32>,
    pub outer_header_removal: Option<u8>,
    /// The SDF filter; `None` matches every packet
    pub sdf_rule: Option<SdfRule>,
    /// The QFI of the PDI: an uplink G-PDU must carry the same QFI
    pub qfi: Option<u8>,
}

/// A forwarding action rule as the data plane applies it.
#[derive(Debug, Clone, Copy)]
pub struct DataPlaneFar {
    pub far_id: u32,
    pub apply_action: u16,
    pub destination_interface: u8,
    /// Outer header creation: the downlink TEID
    pub ohc_teid: Option<u32>,
    /// Outer header creation: the peer IPv4 address
    pub ohc_addr: Option<[u8; 4]>,
    /// The Buffering Action Rule it refers to
    pub bar_id: Option<u8>,
}

/// A buffering action rule (TS 29.244 7.5.2.6).
#[derive(Debug, Clone, Copy)]
pub struct DataPlaneBar {
    pub bar_id: u8,
    pub suggested_buffering_packets_count: Option<u8>,
    /// Downlink Data Notification Delay, in 50 ms units
    pub ddn_delay: Option<u8>,
}

/// What a FAR's Apply Action decides (TS 29.244 8.2.26).
#[derive(Debug, Clone, Copy, PartialEq, Eq)]
pub enum FarDecision {
    /// Forward, with the outer header the FAR creates
    Forward { ohc_teid: Option<u32>, ohc_addr: Option<[u8; 4]> },
    /// Discard
    Drop,
    /// Buffer; `nocp` asks for a Downlink Data Report
    Buffer { nocp: bool, bar_id: Option<u8> },
}

/// The decision of an Apply Action: DROP first, then FORW, then BUFF;
/// without a known bit, drop.
pub open spec fn decision_of(far: DataPlaneFar) -> FarDecision {
    if far.apply_action & FAR_ACTION_DROP != 0 {
        FarDecision::Drop
    } else if far.apply_action & FAR_ACTION_FORW != 0 {
        FarDecision::Forward { ohc_teid: far.ohc_teid, ohc_addr: far.ohc_addr }
    } else if far.apply_action & FAR_ACTION_BUFF != 0 {
        FarDecision::Buffer { nocp: far.apply_action & FAR_ACTION_NOCP != 0, bar_id: far.bar_id }
    } else {
        FarDecision::Drop
    }
}

/// Derives the decision of a FAR.
pub fn far_decision(far: &DataPlaneFar) -> (d: FarDecision)
    ensures
        d == decision_of(*far),
{
    if far.apply_action & FAR_ACTION_DROP != 0 {
        FarDecision::Drop
    } else if far.apply_action & FAR_ACTION_FORW != 0 {
        FarDecision::Forward { ohc_teid: far.ohc_teid, ohc_addr: far.ohc_addr }
    } else if far.apply_action & FAR_ACTION_BUFF != 0 {
        FarDecision::Buffer { nocp: far.apply_action & FAR_ACTION_NOCP != 0, bar_id: far.bar_id }
    } else {
        FarDecision::Drop
    }
}

/// A QoS enforcement rule: gates, bit rates (kbit/s, 0 for none), the QFI
/// and the DSCP that marks its traffic. Rate policing against the bit
/// rates is done with token buckets outside this type.
#[derive(Debug, Clone, Copy)]
pub struct DataPlaneQer {
    pub qer_id: u32,
    pub ul_gate_open: bool,
    pub dl_gate_open: bool,
    pub ul_mbr: u64,
    pub dl_mbr: u64,
    pub ul_gbr: u64,
    pub dl_gbr: u64,
    pub qfi: Option<u8>,
    pub dscp: u8,
    /// An XR delay-critical GBR flow (5QI 82-85), or a flow with a GBR
    pub is_xr: bool,
}

impl DataPlaneQer {
    /// A QER with open gates, no bit rate, no QFI.
    pub fn new(qer_id: u32) -> (q: Self)
        ensures
            q.qer_id == qer_id,
            q.ul_gate_open && q.dl_gate_open,
            q.ul_mbr == 0 && q.dl_mbr == 0 && q.ul_gbr == 0 && q.dl_gbr == 0,
            q.qfi is None,
            q.dscp == 0,
            !q.is_xr,
    {
        DataPlaneQer {
            qer_id,
            ul_gate_open: true,
            dl_gate_open: true,
            ul_mbr: 0,
            dl_mbr: 0,
            ul_gbr: 0,
            dl_gbr: 0,
            qfi: None,
            dscp: 0,
            is_xr: false,
        }
    }

    /// Sets the QFI and the DSCP it maps to. The flow is XR when the QFI is
    /// an XR 5QI or the QER has a GBR; an XR flow without a DSCP gets EF.
    pub fn set_qfi(&mut self, qfi: u8)
        ensures
            final(self).qfi == Some(qfi),
            final(self).is_xr == (82 <= qfi <= 85 || old(self).ul_gbr > 0 || old(self).dl_gbr > 0),
            final(self).dscp == (if final(self).is_xr && dscp_of_qfi(qfi) == 0 { 46 } else { dscp_of_qfi(qfi) }),
            final(self).qer_id == old(self).qer_id,
            final(self).ul_gate_open == old(self).ul_gate_open,
            final(self).dl_gate_open == old(self).dl_gate_open,
            final(self).ul_mbr == old(self).ul_mbr,
            final(self).dl_mbr == old(self).dl_mbr,
            final(self).ul_gbr == old(self).ul_gbr,
            final(self).dl_gbr == old(self).dl_gbr,
    {
        self.qfi = Some(qfi);
        self.dscp = qfi_to_dscp(qfi);
        self.is_xr = is_xr_5qi(qfi) || self.ul_gbr > 0 || self.dl_gbr > 0;
        if self.is_xr && self.dscp == 0 {
            self.dscp = 46;
        }
    }

    /// Sets the maximum bit rates (kbit/s).
    pub fn set_mbr(&mut self, ul_kbps: u64, dl_kbps: u64)
        ensures
            *final(self) == (DataPlaneQer { ul_mbr: ul_kbps, dl_mbr: dl_kbps, ..*old(self) }),
    {
        self.ul_mbr = ul_kbps;
        self.dl_mbr = dl_kbps;
    }

    /// Sets the guaranteed bit rates (kbit/s).
    pub fn set_gbr(&mut self, ul_kbps: u64, dl_kbps: u64)
        ensures
            *final(self) == (DataPlaneQer { ul_gbr: ul_kbps, dl_gbr: dl_kbps, ..*old(self) }),
    {
        self.ul_gbr = ul_kbps;
        self.dl_gbr = dl_kbps;
    }
}

/// What SDF filter matching asks of a packet's 5-tuple, condition by
/// condition: a packet of another protocol than a rule's (0 = any) does
/// not match; nor one whose source or destination address, under the
/// rule's mask, differs from the rule's; nor one whose source or
/// destination port lies outside a port range the rule gives; a packet
/// that meets every condition matches.
pub proof fn lemma_sdf_match_conditions(t: PacketTuple, r: SdfRule)
    ensures
        r.proto != 0 && r.proto != t.protocol ==> !tuple_matches(t, r),
        r.ipv4_src && t.src_ip & r.src_mask != r.src_addr & r.src_mask ==> !tuple_matches(t, r),
        r.ipv4_dst && t.dst_ip & r.dst_mask != r.dst_addr & r.dst_mask ==> !tuple_matches(t, r),
        forall|lo: u16, hi: u16|
            r.src_ports == Some((lo, hi)) && (t.src_port < lo || t.src_port > hi) ==> !tuple_matches(t, r),
        forall|lo: u16, hi: u16|
            r.dst_ports == Some((lo, hi)) && (t.dst_port < lo || t.dst_port > hi) ==> !tuple_matches(t, r),
        ({
            &&& r.proto == 0 || r.proto == t.protocol
            &&& r.ipv4_src ==> t.src_ip & r.src_mask == r.src_addr & r.src_mask
            &&& r.ipv4_dst ==> t.dst_ip & r.dst_mask == r.dst_addr & r.dst_mask
            &&& forall|lo: u16, hi: u16| r.src_ports == Some((lo, hi)) ==> lo <= t.src_port <= hi
            &&& forall|lo: u16, hi: u16| r.dst_ports == Some((lo, hi)) ==> lo <= t.dst_port <= hi
        }) ==> tuple_matches(t, r),
{
    match r.src_ports {
        Some((lo, hi)) => {
            assert(r.src_ports == Some((lo, hi)));
        },
        None => {},
    }
    match r.dst_ports {
        Some((lo, hi)) => {
            assert(r.dst_ports == Some((lo, hi)));
        },
        None => {},
    }
}

} // verus!
