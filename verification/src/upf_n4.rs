//! PFCP (N4) messages that the UPF builds (TS 29.244): the information
//! elements it writes and the bodies of its responses and reports.

use vstd::prelude::*;
use bytes::BytesMut;
use vstd::string::StringSliceAdditionalSpecFns;
use crate::buffer::{
    bytes_mut_contents, bm_with_capacity, bm_new, bm_len, bm_is_empty, bm_clear, bm_to_vec, bm_as_slice,
    bm_put_u8, bm_put_u16, bm_put_u32, bm_put_u64, bm_put_slice,
};
use crate::wire::{be16, be32, be64, tlv, u16_bytes, u32_bytes, u64_bytes, concat_map, lemma_concat_map_step, lemma_concat_map_elem_len};
use crate::ie::{opt_v4, opt_v6, opt_u8, opt_be64, opt_be32, flag, f_seid_value, dns_labels, encode_dns_labels};
use crate::pfcp::{PfcpCause, cause_code};
use crate::pfcp::pfcp_ie;
use crate::smf_n4::string_bytes;

verus! {

/// F-TEID (Fully Qualified Tunnel Endpoint Identifier).
#[derive(Debug, Clone, Copy, Default)]
pub struct FTeid {
    pub teid: u32,
    pub ipv4: Option<[u8; 4]>,
    pub ipv6: Option<[u8; 16]>,
    /// CHOOSE: the peer is asked to allocate the F-TEID
    pub choose: bool,
    pub choose_id: Option<u8>,
}

/// UE IP Address.
#[derive(Debug, Clone, Copy, Default)]
pub struct UeIpAddress {
    pub ipv4: Option<[u8; 4]>,
    pub ipv6: Option<[u8; 16]>,
    pub ipv6_prefix_len: u8,
}

/// A PDR that the UPF created, as reported back to the SMF.
#[derive(Debug, Clone, Copy, Default)]
pub struct CreatedPdr {
    pub pdr_id: u16,
    pub local_f_teid: Option<FTeid>,
    pub ue_ip_address: Option<UeIpAddress>,
}

/// Usage Report Trigger flags (TS 29.244 8.2.41).
#[derive(Debug, Clone, Copy, Default)]
pub struct UsageReportTrigger {
    pub periodic_reporting: bool,
    pub volume_threshold: bool,
    pub time_threshold: bool,
    pub quota_holding_time: bool,
    pub start_of_traffic: bool,
    pub stop_of_traffic: bool,
    pub dropped_dl_traffic_threshold: bool,
    pub immediate_report: bool,
    pub volume_quota: bool,
    pub time_quota: bool,
    pub linked_usage_reporting: bool,
    pub termination_report: bool,
    pub monitoring_time: bool,
    pub envelope_closure: bool,
    pub mac_addresses_reporting: bool,
    pub event_threshold: bool,
    pub event_quota: bool,
    pub termination_by_up_function_report: bool,
    pub ip_multicast_join_leave: bool,
    pub quota_validity_time: bool,
}

/// Volume Measurement (TS 29.244 8.2.44).
#[derive(Debug, Clone, Copy, Default)]
pub struct VolumeMeasurement {
    pub total_volume: Option<u64>,
    pub uplink_volume: Option<u64>,
    pub downlink_volume: Option<u64>,
    pub total_packets: Option<u64>,
    pub uplink_packets: Option<u64>,
    pub downlink_packets: Option<u64>,
}

/// A Usage Report of a session deletion response or a session report.
#[derive(Debug, Clone, Copy, Default)]
pub struct UsageReport {
    pub urr_id: u32,
    pub ur_seqn: u32,
    pub trigger: UsageReportTrigger,
    pub start_time: Option<u32>,
    pub end_time: Option<u32>,
    pub volume_measurement: Option<VolumeMeasurement>,
    pub duration_measurement: Option<u32>,
    pub time_of_first_packet: Option<u32>,
    pub time_of_last_packet: Option<u32>,
}

/// Report Type flags (TS 29.244 8.2.21).
#[derive(Debug, Clone, Copy, Default)]
pub struct ReportType {
    pub downlink_data_report: bool,
    pub usage_report: bool,
    pub error_indication_report: bool,
    pub uplink_data_report: bool,
    pub session_report: bool,
}

/// Downlink Data Service Information.
#[derive(Debug, Clone, Copy, Default)]
pub struct DownlinkDataServiceInfo {
    pub ppi: Option<u8>,
    pub qfi: Option<u8>,
}

/// Downlink Data Report.
#[derive(Debug, Clone, Copy, Default)]
pub struct DownlinkDataReport {
    pub pdr_id: u16,
    pub downlink_data_service_info: Option<DownlinkDataServiceInfo>,
}

/// Error Indication Report.
#[derive(Debug, Clone, Copy, Default)]
pub struct ErrorIndicationReport {
    pub remote_f_teid: FTeid,
}

/// User Plane Report of a Session Report Request.
#[derive(Debug, Default)]
pub struct UserPlaneReport {
    pub report_type: ReportType,
    pub downlink_data_report: Option<DownlinkDataReport>,
    pub usage_reports: Vec<UsageReport>,
    pub error_indication_report: Option<ErrorIndicationReport>,
}

/// PFCP Node ID (TS 29.244 8.2.38).
#[derive(Debug, Clone, PartialEq, Eq)]
pub enum NodeId {
    Ipv4([u8; 4]),
    Ipv6([u8; 16]),
    Fqdn(String),
}

impl Default for NodeId {
    /// The unspecified IPv4 address.
    fn default() -> (n: Self)
        ensures
            n matches NodeId::Ipv4(a) && a@ == seq![0u8, 0u8, 0u8, 0u8],
    {
        let a = [0u8, 0, 0, 0];
        assert(a@ =~= seq![0u8, 0u8, 0u8, 0u8]);
        NodeId::Ipv4(a)
    }
}

/// A Node ID value: the type octet (0 IPv4, 1 IPv6, 2 FQDN) and the
/// address, or the name in DNS label form.
pub open spec fn node_id_value(n: NodeId) -> Seq<u8> {
    match n {
        NodeId::Ipv4(a) => seq![0u8] + a@,
        NodeId::Ipv6(a) => seq![1u8] + a@,
        NodeId::Fqdn(s) => seq![2u8] + dns_labels(string_bytes(s)),
    }
}

impl NodeId {
    /// Encodes the Node ID value.
    pub fn encode(&self) -> (v: Vec<u8>)
        ensures
            v@ == node_id_value(*self),
    {
        let mut buf: Vec<u8> = Vec::new();
        match self {
            NodeId::Ipv4(addr) => {
                buf.push(0);
                buf.extend_from_slice(addr.as_slice());
            },
            NodeId::Ipv6(addr) => {
                buf.push(1);
                buf.extend_from_slice(addr.as_slice());
            },
            NodeId::Fqdn(fqdn) => {
                buf.push(2);
                let labels = encode_dns_labels(fqdn.as_str().as_bytes());
                buf.extend_from_slice(labels.as_slice());
            },
        }
        buf
    }
}

/// F-SEID (Fully Qualified SEID).
#[derive(Debug, Clone, Copy, Default)]
pub struct FSeid {
    pub seid: u64,
    pub ipv4: Option<[u8; 4]>,
    pub ipv6: Option<[u8; 16]>,
}

impl FSeid {
    /// Encodes the F-SEID value (TS 29.244 8.2.37).
    pub fn encode(&self) -> (v: Vec<u8>)
        ensures
            v@ == f_seid_value(self.seid, self.ipv4, self.ipv6),
    {
        let mut buf = bm_new();
        let mut flags: u8 = 0;
        if self.ipv6.is_some() {
            flags = flags + 0x01;
        }
        if self.ipv4.is_some() {
            flags = flags + 0x02;
        }
        bm_put_u8(&mut buf, flags);
        bm_put_u64(&mut buf, self.seid);
        if let Some(addr) = self.ipv4 {
            bm_put_slice(&mut buf, &addr);
        }
        if let Some(addr) = self.ipv6 {
            bm_put_slice(&mut buf, &addr);
        }
        assert(bytes_mut_contents(buf) =~= f_seid_value(self.seid, self.ipv4, self.ipv6));
        bm_to_vec(&buf)
    }
}

/// F-TEID value as the UPF writes it (TS 29.244 8.2.3): flags (V4 = 0x01,
/// V6 = 0x02, CH = 0x04, CHID = 0x08); without CHOOSE the TEID and the
/// present addresses; then the CHOOSE ID when given.
pub open spec fn upf_f_teid_value(t: FTeid) -> Seq<u8> {
    seq![
        (flag(t.ipv4.is_some(), 0x01) + flag(t.ipv6.is_some(), 0x02) + flag(t.choose, 0x04) + flag(
            t.choose_id.is_some(),
            0x08,
        )) as u8,
    ] + if t.choose {
        Seq::empty()
    } else {
        be32(t.teid) + opt_v4(t.ipv4) + opt_v6(t.ipv6)
    } + opt_u8(t.choose_id)
}

/// UE IP Address value as the UPF writes it (TS 29.244 8.2.62): flags (V6 =
/// 0x01, V4 = 0x02, S/D = 0x04 when `sd`, IP6PL = 0x40 when a prefix length
/// is given), the present addresses, then the prefix length when not 0.
pub open spec fn upf_ue_ip_value(u: UeIpAddress, sd: bool) -> Seq<u8> {
    seq![
        (flag(u.ipv6.is_some(), 0x01) + flag(u.ipv4.is_some(), 0x02) + flag(sd, 0x04) + flag(
            u.ipv6_prefix_len > 0,
            0x40,
        )) as u8,
    ] + opt_v4(u.ipv4) + opt_v6(u.ipv6) + if u.ipv6_prefix_len > 0 {
        seq![u.ipv6_prefix_len]
    } else {
        Seq::empty()
    }
}

/// An IE whose value is given, when present.
pub open spec fn opt_tlv(ie_type: u16, v: Option<Seq<u8>>) -> Seq<u8> {
    match v {
        Some(x) => tlv(ie_type, x),
        None => Seq::empty(),
    }
}

/// The value of a Created PDR IE (TS 29.244 7.5.3.2): PDR ID, then the
/// local F-TEID and the UE IP address when given.
pub open spec fn created_pdr_value(c: CreatedPdr) -> Seq<u8> {
    tlv(pfcp_ie::PDR_ID, be16(c.pdr_id)) + opt_tlv(
        pfcp_ie::F_TEID,
        match c.local_f_teid {
            Some(t) => Some(upf_f_teid_value(t)),
            None => None,
        },
    ) + opt_tlv(
        pfcp_ie::UE_IP_ADDRESS,
        match c.ue_ip_address {
            Some(u) => Some(upf_ue_ip_value(u, false)),
            None => None,
        },
    )
}

/// A flags octet: bit 1 (0x01) from `b1` up to bit 8 (0x80) from `b8`.
#[verifier::opaque]
pub open spec fn octet8(b1: bool, b2: bool, b3: bool, b4: bool, b5: bool, b6: bool, b7: bool, b8: bool) -> u8 {
    (flag(b1, 0x01) + flag(b2, 0x02) + flag(b3, 0x04) + flag(b4, 0x08) + flag(b5, 0x10) + flag(b6, 0x20) + flag(
        b7,
        0x40,
    ) + flag(b8, 0x80)) as u8
}

/// The three octets of a Usage Report Trigger (TS 29.244 8.2.41).
pub open spec fn trigger_octets(t: UsageReportTrigger) -> Seq<u8> {
    seq![
        octet8(
            t.periodic_reporting,
            t.volume_threshold,
            t.time_threshold,
            t.quota_holding_time,
            t.start_of_traffic,
            t.stop_of_traffic,
            t.dropped_dl_traffic_threshold,
            t.immediate_report,
        ),
        octet8(
            t.volume_quota,
            t.time_quota,
            t.linked_usage_reporting,
            t.termination_report,
            t.monitoring_time,
            t.envelope_closure,
            t.mac_addresses_reporting,
            t.event_threshold,
        ),
        octet8(
            t.event_quota,
            t.termination_by_up_function_report,
            t.ip_multicast_join_leave,
            t.quota_validity_time,
            false,
            false,
            false,
            false,
        ),
    ]
}

/// A Volume Measurement value (TS 29.244 8.2.44): flags (TOVOL, ULVOL,
/// DLVOL, TONOP, ULNOP, DLNOP from 0x01 to 0x20), then each present count.
pub open spec fn volume_measurement_value(v: VolumeMeasurement) -> Seq<u8> {
    seq![
        octet8(
            v.total_volume.is_some(),
            v.uplink_volume.is_some(),
            v.downlink_volume.is_some(),
            v.total_packets.is_some(),
            v.uplink_packets.is_some(),
            v.downlink_packets.is_some(),
            false,
            false,
        ),
    ] + opt_be64(v.total_volume) + opt_be64(v.uplink_volume) + opt_be64(v.downlink_volume) + opt_be64(
        v.total_packets,
    ) + opt_be64(v.uplink_packets) + opt_be64(v.downlink_packets)
}

/// An IE with a 32-bit value, when present.
pub open spec fn opt_u32_ie(ie_type: u16, v: Option<u32>) -> Seq<u8> {
    match v {
        Some(x) => tlv(ie_type, be32(x)),
        None => Seq::empty(),
    }
}

/// The value of a Usage Report IE (TS 29.244 7.5.5.2, 7.5.8.3): URR ID,
/// UR-SEQN, Usage Report Trigger, then the measurements that are given.
pub open spec fn usage_report_value(r: UsageReport) -> Seq<u8> {
    tlv(pfcp_ie::URR_ID, be32(r.urr_id)) + tlv(pfcp_ie::UR_SEQN, be32(r.ur_seqn)) + tlv(
        pfcp_ie::USAGE_REPORT_TRIGGER,
        trigger_octets(r.trigger),
    ) + opt_u32_ie(pfcp_ie::START_TIME, r.start_time) + opt_u32_ie(pfcp_ie::END_TIME, r.end_time) + opt_tlv(
        pfcp_ie::VOLUME_MEASUREMENT,
        match r.volume_measurement {
            Some(v) => Some(volume_measurement_value(v)),
            None => None,
        },
    ) + opt_u32_ie(pfcp_ie::DURATION_MEASUREMENT, r.duration_measurement) + opt_u32_ie(
        pfcp_ie::TIME_OF_FIRST_PACKET,
        r.time_of_first_packet,
    ) + opt_u32_ie(pfcp_ie::TIME_OF_LAST_PACKET, r.time_of_last_packet)
}

/// The Report Type octet (TS 29.244 8.2.21): DLDR 0x01, USAR 0x02, ERIR
/// 0x04, UPIR 0x08, SESR 0x10.
pub open spec fn report_type_octet(t: ReportType) -> u8 {
    (flag(t.downlink_data_report, 0x01) + flag(t.usage_report, 0x02) + flag(t.error_indication_report, 0x04)
        + flag(t.uplink_data_report, 0x08) + flag(t.session_report, 0x10)) as u8
}

/// Builds a flags octet from its eight bits, lowest first.
fn make_octet8(b1: bool, b2: bool, b3: bool, b4: bool, b5: bool, b6: bool, b7: bool, b8: bool) -> (r: u8)
    ensures
        r == octet8(b1, b2, b3, b4, b5, b6, b7, b8),
{
    reveal(octet8);
    let mut r: u8 = 0;
    if b1 {
        r = r + 0x01;
    }
    if b2 {
        r = r + 0x02;
    }
    if b3 {
        r = r + 0x04;
    }
    if b4 {
        r = r + 0x08;
    }
    if b5 {
        r = r + 0x10;
    }
    if b6 {
        r = r + 0x20;
    }
    if b7 {
        r = r + 0x40;
    }
    if b8 {
        r = r + 0x80;
    }
    r
}

/// The first octet of a Usage Report Trigger.
fn trigger_octet_1(t: &UsageReportTrigger) -> (r: u8)
    ensures
        r == trigger_octets(*t)[0],
{
    make_octet8(
        t.periodic_reporting,
        t.volume_threshold,
        t.time_threshold,
        t.quota_holding_time,
        t.start_of_traffic,
        t.stop_of_traffic,
        t.dropped_dl_traffic_threshold,
        t.immediate_report,
    )
}

/// The second octet of a Usage Report Trigger.
fn trigger_octet_2(t: &UsageReportTrigger) -> (r: u8)
    ensures
        r == trigger_octets(*t)[1],
{
    make_octet8(
        t.volume_quota,
        t.time_quota,
        t.linked_usage_reporting,
        t.termination_report,
        t.monitoring_time,
        t.envelope_closure,
        t.mac_addresses_reporting,
        t.event_threshold,
    )
}

/// The third octet of a Usage Report Trigger.
fn trigger_octet_3(t: &UsageReportTrigger) -> (r: u8)
    ensures
        r == trigger_octets(*t)[2],
{
    make_octet8(
        t.event_quota,
        t.termination_by_up_function_report,
        t.ip_multicast_join_leave,
        t.quota_validity_time,
        false,
        false,
        false,
        false,
    )
}

/// The three octets of a Usage Report Trigger.
fn trigger_octet_array(t: &UsageReportTrigger) -> (r: [u8; 3])
    ensures
        r@ == trigger_octets(*t),
{
    let r = [trigger_octet_1(t), trigger_octet_2(t), trigger_octet_3(t)];
    assert(r@ =~= trigger_octets(*t));
    r
}

/// Writes a big-endian 64-bit value when present.
fn put_opt_u64(value: &mut BytesMut, v: Option<u64>)
    requires
        bytes_mut_contents(*old(value)).len() + 8 <= isize::MAX,
    ensures
        bytes_mut_contents(*final(value)) == bytes_mut_contents(*old(value)) + opt_be64(v),
        bytes_mut_contents(*final(value)).len() <= bytes_mut_contents(*old(value)).len() + 8,
{
    if let Some(x) = v {
        bm_put_u64(value, x);
    } else {
        assert(bytes_mut_contents(*value) =~= bytes_mut_contents(*value) + opt_be64(v));
    }
}

/// Builds a sequence of PFCP information elements.
#[derive(Debug)]
pub struct PfcpMessageBuilder {
    buffer: BytesMut,
}

impl View for PfcpMessageBuilder {
    type V = Seq<u8>;

    closed spec fn view(&self) -> Seq<u8> {
        bytes_mut_contents(self.buffer)
    }
}

impl PfcpMessageBuilder {
    /// An empty builder.
    pub fn new() -> (b: Self)
        ensures
            b@ == Seq::<u8>::empty(),
    {
        PfcpMessageBuilder { buffer: bm_with_capacity(4096) }
    }

    /// The number of bytes built so far.
    pub fn len(&self) -> (n: usize)
        ensures
            n == self@.len(),
    {
        bm_len(&self.buffer)
    }

    /// Whether nothing has been built.
    pub fn is_empty(&self) -> (e: bool)
        ensures
            e == (self@.len() == 0),
    {
        bm_is_empty(&self.buffer)
    }

    /// Drops everything built so far.
    pub fn clear(&mut self)
        ensures
            final(self)@ == Seq::<u8>::empty(),
    {
        bm_clear(&mut self.buffer)
    }

    /// The bytes built.
    pub fn build(self) -> (v: Vec<u8>)
        ensures
            v@ == self@,
    {
        bm_to_vec(&self.buffer)
    }

    /// Appends an IE in type-length-value form.
    pub fn add_tlv(&mut self, ie_type: u16, value: &[u8]) -> (r: &mut Self)
        requires
            old(self)@.len() + 4 + value@.len() <= isize::MAX,
        ensures
            r@ == old(self)@ + tlv(ie_type, value@),
            *final(self) == *final(r),
    {
        bm_put_u16(&mut self.buffer, ie_type);
        bm_put_u16(&mut self.buffer, (value.len() % 0x1_0000) as u16);
        bm_put_slice(&mut self.buffer, value);
        self
    }

    /// Appends an IE whose value is one octet.
    pub fn add_u8(&mut self, ie_type: u16, value: u8) -> (r: &mut Self)
        requires
            old(self)@.len() + 5 <= isize::MAX,
        ensures
            r@ == old(self)@ + tlv(ie_type, seq![value]),
            *final(self) == *final(r),
    {
        let v = [value];
        assert(v@ =~= seq![value]);
        self.add_tlv(ie_type, &v)
    }

    /// Appends an IE whose value is a big-endian 16-bit integer.
    pub fn add_u16(&mut self, ie_type: u16, value: u16) -> (r: &mut Self)
        requires
            old(self)@.len() + 6 <= isize::MAX,
        ensures
            r@ == old(self)@ + tlv(ie_type, be16(value)),
            *final(self) == *final(r),
    {
        let v = u16_bytes(value);
        self.add_tlv(ie_type, &v)
    }

    /// Appends an IE whose value is a big-endian 32-bit integer.
    pub fn add_u32(&mut self, ie_type: u16, value: u32) -> (r: &mut Self)
        requires
            old(self)@.len() + 8 <= isize::MAX,
        ensures
            r@ == old(self)@ + tlv(ie_type, be32(value)),
            *final(self) == *final(r),
    {
        let v = u32_bytes(value);
        self.add_tlv(ie_type, &v)
    }

    /// Appends an IE whose value is a big-endian 64-bit integer.
    pub fn add_u64(&mut self, ie_type: u16, value: u64) -> (r: &mut Self)
        requires
            old(self)@.len() + 12 <= isize::MAX,
        ensures
            r@ == old(self)@ + tlv(ie_type, be64(value)),
            *final(self) == *final(r),
    {
        let v = u64_bytes(value);
        self.add_tlv(ie_type, &v)
    }

    /// Appends a Node ID IE.
    pub fn add_node_id(&mut self, node_id: &NodeId) -> (r: &mut Self)
        requires
            old(self)@.len() + 4 + node_id_value(*node_id).len() <= isize::MAX,
        ensures
            r@ == old(self)@ + tlv(pfcp_ie::NODE_ID, node_id_value(*node_id)),
            *final(self) == *final(r),
    {
        let v = node_id.encode();
        self.add_tlv(pfcp_ie::NODE_ID, v.as_slice())
    }

    /// Appends an F-SEID IE.
    pub fn add_f_seid(&mut self, f_seid: &FSeid) -> (r: &mut Self)
        requires
            old(self)@.len() + 4 + f_seid_value(f_seid.seid, f_seid.ipv4, f_seid.ipv6).len() <= isize::MAX,
        ensures
            r@ == old(self)@ + tlv(pfcp_ie::F_SEID, f_seid_value(f_seid.seid, f_seid.ipv4, f_seid.ipv6)),
            *final(self) == *final(r),
    {
        let v = f_seid.encode();
        self.add_tlv(pfcp_ie::F_SEID, v.as_slice())
    }

    /// Appends a Cause IE.
    pub fn add_cause(&mut self, cause: PfcpCause) -> (r: &mut Self)
        requires
            old(self)@.len() + 5 <= isize::MAX,
        ensures
            r@ == old(self)@ + tlv(pfcp_ie::CAUSE, seq![cause_code(cause)]),
            *final(self) == *final(r),
    {
        self.add_u8(pfcp_ie::CAUSE, cause.as_u8())
    }

    /// Appends a PDR ID IE.
    pub fn add_pdr_id(&mut self, pdr_id: u16) -> (r: &mut Self)
        requires
            old(self)@.len() + 6 <= isize::MAX,
        ensures
            r@ == old(self)@ + tlv(pfcp_ie::PDR_ID, be16(pdr_id)),
            *final(self) == *final(r),
    {
        self.add_u16(pfcp_ie::PDR_ID, pdr_id)
    }

    /// Appends an F-TEID IE. A CHOOSE ID goes with CHOOSE.
    pub fn add_f_teid(&mut self, f_teid: &FTeid) -> (r: &mut Self)
        requires
            f_teid.choose_id is Some ==> f_teid.choose,
            old(self)@.len() + 4 + upf_f_teid_value(*f_teid).len() <= isize::MAX,
        ensures
            r@ == old(self)@ + tlv(pfcp_ie::F_TEID, upf_f_teid_value(*f_teid)),
            *final(self) == *final(r),
    {
        let mut value = bm_new();
        let mut flags: u8 = 0;
        if f_teid.ipv4.is_some() {
            flags = flags + 0x01;
        }
        if f_teid.ipv6.is_some() {
            flags = flags + 0x02;
        }
        if f_teid.choose {
            flags = flags + 0x04;
        }
        if f_teid.choose_id.is_some() {
            flags = flags + 0x08;
        }
        bm_put_u8(&mut value, flags);
        if !f_teid.choose {
            bm_put_u32(&mut value, f_teid.teid);
            if let Some(addr) = f_teid.ipv4 {
                bm_put_slice(&mut value, &addr);
            }
            if let Some(addr) = f_teid.ipv6 {
                bm_put_slice(&mut value, &addr);
            }
        }
        if let Some(id) = f_teid.choose_id {
            bm_put_u8(&mut value, id);
        }
        assert(bytes_mut_contents(value) =~= upf_f_teid_value(*f_teid));
        self.add_tlv(pfcp_ie::F_TEID, bm_as_slice(&value))
    }

    /// Appends a UE IP Address IE; `source` sets the S/D bit.
    pub fn add_ue_ip_address(&mut self, ue_ip: &UeIpAddress, source: bool) -> (r: &mut Self)
        requires
            old(self)@.len() + 4 + upf_ue_ip_value(*ue_ip, source).len() <= isize::MAX,
        ensures
            r@ == old(self)@ + tlv(pfcp_ie::UE_IP_ADDRESS, upf_ue_ip_value(*ue_ip, source)),
            *final(self) == *final(r),
    {
        let mut value = bm_new();
        let mut flags: u8 = 0;
        if ue_ip.ipv6.is_some() {
            flags = flags + 0x01;
        }
        if ue_ip.ipv4.is_some() {
            flags = flags + 0x02;
        }
        if source {
            flags = flags + 0x04;
        }
        if ue_ip.ipv6_prefix_len > 0 {
            flags = flags + 0x40;
        }
        bm_put_u8(&mut value, flags);
        if let Some(addr) = ue_ip.ipv4 {
            bm_put_slice(&mut value, &addr);
        }
        if let Some(addr) = ue_ip.ipv6 {
            bm_put_slice(&mut value, &addr);
        }
        if ue_ip.ipv6_prefix_len > 0 {
            bm_put_u8(&mut value, ue_ip.ipv6_prefix_len);
        }
        assert(bytes_mut_contents(value) =~= upf_ue_ip_value(*ue_ip, source));
        self.add_tlv(pfcp_ie::UE_IP_ADDRESS, bm_as_slice(&value))
    }

    /// Appends a Created PDR IE.
    pub fn add_created_pdr(&mut self, created_pdr: &CreatedPdr) -> (r: &mut Self)
        requires
            created_pdr.local_f_teid matches Some(t) ==> (t.choose_id is Some ==> t.choose),
            old(self)@.len() + 4 + created_pdr_value(*created_pdr).len() <= isize::MAX,
        ensures
            r@ == old(self)@ + tlv(pfcp_ie::CREATED_PDR, created_pdr_value(*created_pdr)),
            *final(self) == *final(r),
    {
        let ghost whole = created_pdr_value(*created_pdr);
        let mut inner = PfcpMessageBuilder::new();
        inner.add_pdr_id(created_pdr.pdr_id);
        if let Some(ref f_teid) = created_pdr.local_f_teid {
            inner.add_f_teid(f_teid);
        }
        if let Some(ref ue_ip) = created_pdr.ue_ip_address {
            inner.add_ue_ip_address(ue_ip, false);
        }
        assert(inner@ =~= whole);
        let v = inner.build();
        self.add_tlv(pfcp_ie::CREATED_PDR, v.as_slice())
    }

    /// Appends a 32-bit IE when a value is given.
    fn add_opt_u32(&mut self, ie_type: u16, v: Option<u32>)
        requires
            old(self)@.len() + 8 <= isize::MAX,
        ensures
            final(self)@ == old(self)@ + opt_u32_ie(ie_type, v),
            final(self)@.len() <= old(self)@.len() + 8,
    {
        if let Some(x) = v {
            self.add_u32(ie_type, x);
        } else {
            assert(self@ =~= self@ + opt_u32_ie(ie_type, v));
        }
    }

    /// Appends a Usage Report Trigger IE.
    pub fn add_usage_report_trigger(&mut self, trigger: &UsageReportTrigger) -> (r: &mut Self)
        requires
            old(self)@.len() + 7 <= isize::MAX,
        ensures
            r@ == old(self)@ + tlv(pfcp_ie::USAGE_REPORT_TRIGGER, trigger_octets(*trigger)),
            *final(self) == *final(r),
    {
        let flags = trigger_octet_array(trigger);
        self.add_tlv(pfcp_ie::USAGE_REPORT_TRIGGER, &flags)
    }

    /// Appends a Volume Measurement IE.
    pub fn add_volume_measurement(&mut self, vol: &VolumeMeasurement) -> (r: &mut Self)
        requires
            old(self)@.len() + 53 <= isize::MAX,
        ensures
            r@ == old(self)@ + tlv(pfcp_ie::VOLUME_MEASUREMENT, volume_measurement_value(*vol)),
            r@.len() <= old(self)@.len() + 53,
            *final(self) == *final(r),
    {
        let mut value = bm_new();
        let flags = make_octet8(
            vol.total_volume.is_some(),
            vol.uplink_volume.is_some(),
            vol.downlink_volume.is_some(),
            vol.total_packets.is_some(),
            vol.uplink_packets.is_some(),
            vol.downlink_packets.is_some(),
            false,
            false,
        );
        bm_put_u8(&mut value, flags);
        put_opt_u64(&mut value, vol.total_volume);
        put_opt_u64(&mut value, vol.uplink_volume);
        put_opt_u64(&mut value, vol.downlink_volume);
        put_opt_u64(&mut value, vol.total_packets);
        put_opt_u64(&mut value, vol.uplink_packets);
        put_opt_u64(&mut value, vol.downlink_packets);
        assert(bytes_mut_contents(value) =~= volume_measurement_value(*vol));
        self.add_tlv(pfcp_ie::VOLUME_MEASUREMENT, bm_as_slice(&value))
    }

    /// Appends a Usage Report IE of the given type (Session Modification,
    /// Deletion or Report).
    pub fn add_usage_report(&mut self, report: &UsageReport, ie_type: u16) -> (r: &mut Self)
        requires
            old(self)@.len() + 4 + usage_report_value(*report).len() <= isize::MAX,
        ensures
            r@ == old(self)@ + tlv(ie_type, usage_report_value(*report)),
            *final(self) == *final(r),
    {
        let mut inner = PfcpMessageBuilder::new();
        inner.add_u32(pfcp_ie::URR_ID, report.urr_id);
        inner.add_u32(pfcp_ie::UR_SEQN, report.ur_seqn);
        inner.add_usage_report_trigger(&report.trigger);
        inner.add_opt_u32(pfcp_ie::START_TIME, report.start_time);
        inner.add_opt_u32(pfcp_ie::END_TIME, report.end_time);
        let ghost mid = inner@;
        if let Some(ref vol) = report.volume_measurement {
            inner.add_volume_measurement(vol);
        }
        assert(inner@ =~= mid + opt_tlv(
            pfcp_ie::VOLUME_MEASUREMENT,
            match report.volume_measurement {
                Some(v) => Some(volume_measurement_value(v)),
                None => None,
            },
        ));
        inner.add_opt_u32(pfcp_ie::DURATION_MEASUREMENT, report.duration_measurement);
        inner.add_opt_u32(pfcp_ie::TIME_OF_FIRST_PACKET, report.time_of_first_packet);
        inner.add_opt_u32(pfcp_ie::TIME_OF_LAST_PACKET, report.time_of_last_packet);
        assert(inner@ =~= usage_report_value(*report));
        let v = inner.build();
        self.add_tlv(ie_type, v.as_slice())
    }

    /// Appends a Report Type IE.
    pub fn add_report_type(&mut self, report_type: &ReportType) -> (r: &mut Self)
        requires
            old(self)@.len() + 5 <= isize::MAX,
        ensures
            r@ == old(self)@ + tlv(pfcp_ie::REPORT_TYPE, seq![report_type_octet(*report_type)]),
            *final(self) == *final(r),
    {
        let mut flags: u8 = 0;
        if report_type.downlink_data_report {
            flags = flags + 0x01;
        }
        if report_type.usage_report {
            flags = flags + 0x02;
        }
        if report_type.error_indication_report {
            flags = flags + 0x04;
        }
        if report_type.uplink_data_report {
            flags = flags + 0x08;
        }
        if report_type.session_report {
            flags = flags + 0x10;
        }
        self.add_u8(pfcp_ie::REPORT_TYPE, flags)
    }
}

/// A created PDR that can be written: a CHOOSE ID in its F-TEID goes with
/// CHOOSE.
pub open spec fn created_pdr_ok(c: CreatedPdr) -> bool {
    c.local_f_teid matches Some(t) ==> (t.choose_id is Some ==> t.choose)
}

/// The Created PDR IEs of a list of created PDRs.
pub open spec fn created_pdr_ies(pdrs: Seq<CreatedPdr>) -> Seq<u8> {
    concat_map(pdrs, |c: CreatedPdr| tlv(pfcp_ie::CREATED_PDR, created_pdr_value(c)))
}

/// The Usage Report IEs of a list of reports, each of the given type.
pub open spec fn usage_report_ies(ie_type: u16, reports: Seq<UsageReport>) -> Seq<u8> {
    concat_map(reports, |r: UsageReport| tlv(ie_type, usage_report_value(r)))
}

/// Appends a Created PDR IE for each created PDR.
fn add_created_pdrs(b: &mut PfcpMessageBuilder, pdrs: &[CreatedPdr])
    requires
        forall|i: int| 0 <= i < pdrs@.len() ==> created_pdr_ok(#[trigger] pdrs@[i]),
        old(b)@.len() + created_pdr_ies(pdrs@).len() <= isize::MAX,
    ensures
        final(b)@ == old(b)@ + created_pdr_ies(pdrs@),
{
    let ghost head = b@;
    let n = pdrs.len();
    let mut i: usize = 0;
    while i < n
        invariant
            n == pdrs@.len(),
            i <= n,
            forall|k: int| 0 <= k < pdrs@.len() ==> created_pdr_ok(#[trigger] pdrs@[k]),
            head.len() + created_pdr_ies(pdrs@).len() <= isize::MAX,
            b@ == head + created_pdr_ies(pdrs@.take(i as int)),
        decreases n - i,
    {
        proof {
            lemma_concat_map_step(pdrs@, |c: CreatedPdr| tlv(pfcp_ie::CREATED_PDR, created_pdr_value(c)), i as int);
            lemma_concat_map_elem_len(
                pdrs@,
                |c: CreatedPdr| tlv(pfcp_ie::CREATED_PDR, created_pdr_value(c)),
                i as int,
            );
        }
        b.add_created_pdr(&pdrs[i]);
        i = i + 1;
    }
    assert(pdrs@.take(n as int) =~= pdrs@);
}

/// Appends a Usage Report IE of the given type for each report.
fn add_usage_reports(b: &mut PfcpMessageBuilder, reports: &[UsageReport], ie_type: u16)
    requires
        old(b)@.len() + usage_report_ies(ie_type, reports@).len() <= isize::MAX,
    ensures
        final(b)@ == old(b)@ + usage_report_ies(ie_type, reports@),
{
    let ghost head = b@;
    let n = reports.len();
    let mut i: usize = 0;
    while i < n
        invariant
            n == reports@.len(),
            i <= n,
            head.len() + usage_report_ies(ie_type, reports@).len() <= isize::MAX,
            b@ == head + usage_report_ies(ie_type, reports@.take(i as int)),
        decreases n - i,
    {
        proof {
            lemma_concat_map_step(reports@, |r: UsageReport| tlv(ie_type, usage_report_value(r)), i as int);
            lemma_concat_map_elem_len(reports@, |r: UsageReport| tlv(ie_type, usage_report_value(r)), i as int);
        }
        b.add_usage_report(&reports[i], ie_type);
        i = i + 1;
    }
    assert(reports@.take(n as int) =~= reports@);
}

/// The Cause IE that accepts a request.
pub open spec fn accepted_cause_ie() -> Seq<u8> {
    tlv(pfcp_ie::CAUSE, seq![cause_code(PfcpCause::RequestAccepted)])
}

/// The body of a Session Establishment Response: Node ID, Cause Request
/// Accepted, UP F-SEID, then a Created PDR per created PDR.
pub open spec fn establishment_response_value(node_id: NodeId, f_seid: FSeid, pdrs: Seq<CreatedPdr>) -> Seq<u8> {
    tlv(pfcp_ie::NODE_ID, node_id_value(node_id)) + accepted_cause_ie() + tlv(
        pfcp_ie::F_SEID,
        f_seid_value(f_seid.seid, f_seid.ipv4, f_seid.ipv6),
    ) + created_pdr_ies(pdrs)
}

/// Builds the body of a Session Establishment Response. The message type
/// and the SEID go into the header, not the body.
pub fn build_session_establishment_response(
    msg_type: u8,
    upf_n4_seid: u64,
    node_id: &NodeId,
    f_seid: &FSeid,
    created_pdrs: &[CreatedPdr],
) -> (v: Vec<u8>)
    requires
        forall|i: int| 0 <= i < created_pdrs@.len() ==> created_pdr_ok(#[trigger] created_pdrs@[i]),
        establishment_response_value(*node_id, *f_seid, created_pdrs@).len() <= isize::MAX,
    ensures
        v@ == establishment_response_value(*node_id, *f_seid, created_pdrs@),
{
    let ghost whole = establishment_response_value(*node_id, *f_seid, created_pdrs@);
    let mut b = PfcpMessageBuilder::new();
    b.add_node_id(node_id);
    b.add_cause(PfcpCause::RequestAccepted);
    b.add_f_seid(f_seid);
    add_created_pdrs(&mut b, created_pdrs);
    assert(b@ =~= whole);
    b.build()
}

/// Builds the body of a Session Modification Response: Cause Request
/// Accepted, then a Created PDR per created PDR.
pub fn build_session_modification_response(msg_type: u8, created_pdrs: &[CreatedPdr]) -> (v: Vec<u8>)
    requires
        forall|i: int| 0 <= i < created_pdrs@.len() ==> created_pdr_ok(#[trigger] created_pdrs@[i]),
        accepted_cause_ie().len() + created_pdr_ies(created_pdrs@).len() <= isize::MAX,
    ensures
        v@ == accepted_cause_ie() + created_pdr_ies(created_pdrs@),
{
    let mut b = PfcpMessageBuilder::new();
    b.add_cause(PfcpCause::RequestAccepted);
    add_created_pdrs(&mut b, created_pdrs);
    b.build()
}

/// Builds the body of a Session Deletion Response: Cause Request Accepted,
/// then a Usage Report (Session Deletion Response) per report.
pub fn build_session_deletion_response(msg_type: u8, usage_reports: &[UsageReport]) -> (v: Vec<u8>)
    requires
        accepted_cause_ie().len() + usage_report_ies(pfcp_ie::USAGE_REPORT_SDR, usage_reports@).len() <= isize::MAX,
    ensures
        v@ == accepted_cause_ie() + usage_report_ies(pfcp_ie::USAGE_REPORT_SDR, usage_reports@),
{
    let mut b = PfcpMessageBuilder::new();
    b.add_cause(PfcpCause::RequestAccepted);
    add_usage_reports(&mut b, usage_reports, pfcp_ie::USAGE_REPORT_SDR);
    b.build()
}

/// A Downlink Data Service Information value (TS 29.244 8.2.27): flags
/// (PPI 0x01, QFII 0x02), then the PPI and the QFI when given.
pub open spec fn dds_info_value(info: DownlinkDataServiceInfo) -> Seq<u8> {
    seq![(flag(info.ppi.is_some(), 0x01) + flag(info.qfi.is_some(), 0x02)) as u8] + opt_u8(info.ppi) + opt_u8(
        info.qfi,
    )
}

/// A Downlink Data Report value: the PDR ID and the service information
/// when given.
pub open spec fn dl_data_report_value(d: DownlinkDataReport) -> Seq<u8> {
    tlv(pfcp_ie::PDR_ID, be16(d.pdr_id)) + opt_tlv(
        pfcp_ie::DOWNLINK_DATA_SERVICE_INFORMATION,
        match d.downlink_data_service_info {
            Some(i) => Some(dds_info_value(i)),
            None => None,
        },
    )
}

/// The body of a Session Report Request: Report Type, the Downlink Data
/// Report when given, a Usage Report (Session Report Request) per report,
/// and the Error Indication Report with the remote F-TEID when given.
pub open spec fn report_request_value(r: UserPlaneReport) -> Seq<u8> {
    tlv(pfcp_ie::REPORT_TYPE, seq![report_type_octet(r.report_type)]) + opt_tlv(
        pfcp_ie::DOWNLINK_DATA_REPORT,
        match r.downlink_data_report {
            Some(d) => Some(dl_data_report_value(d)),
            None => None,
        },
    ) + usage_report_ies(pfcp_ie::USAGE_REPORT_SRR, r.usage_reports@) + opt_tlv(
        pfcp_ie::ERROR_INDICATION_REPORT,
        match r.error_indication_report {
            Some(e) => Some(tlv(pfcp_ie::F_TEID, upf_f_teid_value(e.remote_f_teid))),
            None => None,
        },
    )
}

/// A report that can be written: a CHOOSE ID in the remote F-TEID of its
/// error indication goes with CHOOSE.
pub open spec fn report_ok(r: UserPlaneReport) -> bool {
    r.error_indication_report matches Some(e) ==> (e.remote_f_teid.choose_id is Some ==> e.remote_f_teid.choose)
}

/// Builds a Downlink Data Report value.
fn build_dl_data_report(d: &DownlinkDataReport) -> (v: Vec<u8>)
    ensures
        v@ == dl_data_report_value(*d),
{
    let mut inner = PfcpMessageBuilder::new();
    inner.add_pdr_id(d.pdr_id);
    if let Some(ref info) = d.downlink_data_service_info {
        let mut dds = bm_new();
        let mut flags: u8 = 0;
        if info.ppi.is_some() {
            flags = flags + 0x01;
        }
        if info.qfi.is_some() {
            flags = flags + 0x02;
        }
        bm_put_u8(&mut dds, flags);
        if let Some(ppi) = info.ppi {
            bm_put_u8(&mut dds, ppi);
        }
        if let Some(qfi) = info.qfi {
            bm_put_u8(&mut dds, qfi);
        }
        assert(bytes_mut_contents(dds) =~= dds_info_value(*info));
        inner.add_tlv(pfcp_ie::DOWNLINK_DATA_SERVICE_INFORMATION, bm_as_slice(&dds));
    }
    assert(inner@ =~= dl_data_report_value(*d));
    inner.build()
}

/// Builds the body of a Session Report Request.
pub fn build_session_report_request(msg_type: u8, report: &UserPlaneReport) -> (v: Vec<u8>)
    requires
        report_ok(*report),
        report_request_value(*report).len() <= isize::MAX,
    ensures
        v@ == report_request_value(*report),
{
    let ghost whole = report_request_value(*report);
    let ghost p_type = tlv(pfcp_ie::REPORT_TYPE, seq![report_type_octet(report.report_type)]);
    let ghost p_dldr = opt_tlv(
        pfcp_ie::DOWNLINK_DATA_REPORT,
        match report.downlink_data_report {
            Some(d) => Some(dl_data_report_value(d)),
            None => None,
        },
    );
    let ghost p_urs = usage_report_ies(pfcp_ie::USAGE_REPORT_SRR, report.usage_reports@);
    let ghost p_eir = opt_tlv(
        pfcp_ie::ERROR_INDICATION_REPORT,
        match report.error_indication_report {
            Some(e) => Some(tlv(pfcp_ie::F_TEID, upf_f_teid_value(e.remote_f_teid))),
            None => None,
        },
    );
    assert(whole == p_type + p_dldr + p_urs + p_eir);
    assert(whole.len() == p_type.len() + p_dldr.len() + p_urs.len() + p_eir.len());
    let mut b = PfcpMessageBuilder::new();
    b.add_report_type(&report.report_type);
    if let Some(ref dldr) = report.downlink_data_report {
        let v = build_dl_data_report(dldr);
        b.add_tlv(pfcp_ie::DOWNLINK_DATA_REPORT, v.as_slice());
    }
    assert(b@ =~= p_type + p_dldr);
    add_usage_reports(&mut b, report.usage_reports.as_slice(), pfcp_ie::USAGE_REPORT_SRR);
    let ghost mid = b@;
    if let Some(ref eir) = report.error_indication_report {
        let mut inner = PfcpMessageBuilder::new();
        inner.add_f_teid(&eir.remote_f_teid);
        let v = inner.build();
        b.add_tlv(pfcp_ie::ERROR_INDICATION_REPORT, v.as_slice());
    }
    assert(b@ =~= mid + p_eir);
    assert(b@ =~= whole);
    b.build()
}

/// The body of a heartbeat message: the Recovery Time Stamp.
pub open spec fn heartbeat_value(recovery_time_stamp: u32) -> Seq<u8> {
    tlv(pfcp_ie::RECOVERY_TIME_STAMP, be32(recovery_time_stamp))
}

/// Builds the body of a Heartbeat Response.
pub fn build_heartbeat_response(recovery_time_stamp: u32) -> (v: Vec<u8>)
    ensures
        v@ == heartbeat_value(recovery_time_stamp),
{
    let mut b = PfcpMessageBuilder::new();
    b.add_u32(pfcp_ie::RECOVERY_TIME_STAMP, recovery_time_stamp);
    b.build()
}

/// Builds the body of a Heartbeat Request (TS 29.244 7.4.2).
pub fn build_heartbeat_request(recovery_time_stamp: u32) -> (v: Vec<u8>)
    ensures
        v@ == heartbeat_value(recovery_time_stamp),
{
    let mut b = PfcpMessageBuilder::new();
    b.add_u32(pfcp_ie::RECOVERY_TIME_STAMP, recovery_time_stamp);
    b.build()
}

/// The Load Control Information value carried on a heartbeat: a Load
/// Control Sequence Number and a Load Metric, the metric capped at 100
/// (a percentage, TS 29.244 8.2.53).
pub open spec fn load_control_value(load_seq: u32, load_metric: u8) -> Seq<u8> {
    tlv(pfcp_ie::SEQUENCE_NUMBER, be32(load_seq)) + tlv(
        pfcp_ie::METRIC,
        seq![if load_metric <= 100 { load_metric } else { 100u8 }],
    )
}

/// Builds the body of a Heartbeat Request that also carries the UPF's load
/// as a Load Control Information grouped IE.
pub fn build_heartbeat_request_with_load(recovery_time_stamp: u32, load_seq: u32, load_metric: u8) -> (v: Vec<u8>)
    ensures
        v@ == heartbeat_value(recovery_time_stamp) + tlv(
            pfcp_ie::LOAD_CONTROL_INFORMATION,
            load_control_value(load_seq, load_metric),
        ),
{
    let mut b = PfcpMessageBuilder::new();
    b.add_u32(pfcp_ie::RECOVERY_TIME_STAMP, recovery_time_stamp);
    let metric: u8 = if load_metric <= 100 { load_metric } else { 100 };
    let mut lci = PfcpMessageBuilder::new();
    lci.add_u32(pfcp_ie::SEQUENCE_NUMBER, load_seq);
    lci.add_u8(pfcp_ie::METRIC, metric);
    let v = lci.build();
    b.add_tlv(pfcp_ie::LOAD_CONTROL_INFORMATION, v.as_slice());
    b.build()
}

/// The UP Function Features this UPF implements (TS 29.244 8.2.25), as
/// eight feature octets: FTUP (F-TEID allocation in the UP function, octet
/// 5 bit 5) and EMPU (End Marker sending, octet 6 bit 1).
pub open spec fn up_function_features() -> Seq<u8> {
    seq![0x10u8, 0x01u8, 0u8, 0u8, 0u8, 0u8, 0u8, 0u8]
}

/// The UP Function Features octets this UPF advertises.
pub fn upf_function_features() -> (v: Vec<u8>)
    ensures
        v@ == up_function_features(),
{
    let v = vec![0x10u8, 0x01, 0, 0, 0, 0, 0, 0];
    assert(v@ =~= up_function_features());
    v
}

/// Builds the body of an Association Setup Response: Node ID, Cause,
/// Recovery Time Stamp and UP Function Features.
pub fn build_association_setup_response(node_id: &NodeId, recovery_time_stamp: u32, cause: PfcpCause) -> (v: Vec<
    u8,
>)
    requires
        node_id_value(*node_id).len() + 64 <= isize::MAX,
    ensures
        v@ == tlv(pfcp_ie::NODE_ID, node_id_value(*node_id)) + tlv(pfcp_ie::CAUSE, seq![cause_code(cause)])
            + heartbeat_value(recovery_time_stamp) + tlv(pfcp_ie::UP_FUNCTION_FEATURES, up_function_features()),
{
    let mut b = PfcpMessageBuilder::new();
    b.add_node_id(node_id);
    b.add_cause(cause);
    b.add_u32(pfcp_ie::RECOVERY_TIME_STAMP, recovery_time_stamp);
    let features = upf_function_features();
    b.add_tlv(pfcp_ie::UP_FUNCTION_FEATURES, features.as_slice());
    b.build()
}

/// Builds the body of an Association Release Response (TS 29.244 7.4.4.2):
/// Node ID and Cause.
pub fn build_association_release_response(node_id: &NodeId, cause: PfcpCause) -> (v: Vec<u8>)
    requires
        node_id_value(*node_id).len() + 16 <= isize::MAX,
    ensures
        v@ == tlv(pfcp_ie::NODE_ID, node_id_value(*node_id)) + tlv(pfcp_ie::CAUSE, seq![cause_code(cause)]),
{
    let mut b = PfcpMessageBuilder::new();
    b.add_node_id(node_id);
    b.add_cause(cause);
    b.build()
}

/// Builds the body of a failure response (TS 29.244 7.5.3, 7.5.5): the
/// Cause, then the Offending IE when one is named.
pub fn build_failure_response(cause: PfcpCause, offending_ie: Option<u16>) -> (v: Vec<u8>)
    ensures
        v@ == tlv(pfcp_ie::CAUSE, seq![cause_code(cause)]) + match offending_ie {
            Some(t) => tlv(pfcp_ie::OFFENDING_IE, be16(t)),
            None => Seq::empty(),
        },
{
    let mut b = PfcpMessageBuilder::new();
    b.add_cause(cause);
    if let Some(ie_type) = offending_ie {
        b.add_u16(pfcp_ie::OFFENDING_IE, ie_type);
    }
    b.build()
}

} // verus!
