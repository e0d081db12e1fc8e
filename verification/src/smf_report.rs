//! What the SMF makes of a PFCP Session Report Request from a UPF (TS
//! 29.244 7.5.8): the session and sequence number it answers, the Report
//! Type, the Downlink Data Report and usage reports it carries, and the
//! Session Report Response to send back.

use vstd::prelude::*;
use crate::wire::{be16, be32, tlv, u16_at, u32_at, u64_at, read_u16, read_u32, read_u64, u16_bytes, u32_bytes};
use crate::upf_parse::{IeView, ParsedIe, parse_ies, first_of, ie_views};
use crate::smf_n4::PfcpMessageBuilder;
use crate::pfcp::pfcp_ie;
use crate::pfcp::pfcp_type;
use crate::ie::opt_be64;
use crate::wire::{be64, lemma_u64_roundtrip};
use crate::upf_n4::{VolumeMeasurement, volume_measurement_value, octet8, UsageReport, usage_report_value, trigger_octets, opt_u32_ie, opt_tlv};
use crate::upf_parse::{tlvs, lemma_parse_tlvs};
use crate::wire::lemma_u32_roundtrip;
use crate::ie::flag;

verus! {

/// What a Downlink Data Report (IE 83) names: its PDR ID (IE 56) and the
/// QFI of its Downlink Data Service Information (IE 45).
#[derive(Debug, Clone, Copy, PartialEq, Eq)]
pub struct DownlinkDataInfo {
    pub pdr_id: Option<u16>,
    pub qfi: Option<u8>,
}

/// What a Usage Report (IE 80) gives: the URR ID and the uplink and
/// downlink volumes measured (0 when absent).
#[derive(Debug, Clone, Copy, PartialEq, Eq)]
pub struct UsageReportSummary {
    pub urr_id: u32,
    pub ul_volume: u64,
    pub dl_volume: u64,
}

/// The answer to a Session Report Request.
#[derive(Debug, Clone)]
pub struct SessionReportAnswer {
    pub seid: u64,
    pub seq: u32,
    /// The Report Type; `None` when the mandatory IE is missing, which the
    /// response rejects
    pub report_type: Option<u8>,
    /// With the DLDR flag set: the Downlink Data Report, if present
    pub dldr: Option<Option<DownlinkDataInfo>>,
    pub usage_reports: Vec<UsageReportSummary>,
    /// The Session Report Response to send
    pub response: Vec<u8>,
}

/// A PFCP message with a SEID (TS 29.244 7.2.2): version 1 with the S
/// flag, the type, the length of what follows the first four octets, the
/// SEID, the 24-bit sequence number, a spare octet, then the body.
pub open spec fn session_message(msg_type: u8, seid: u64, seq: u32, body: Seq<u8>) -> Seq<u8> {
    seq![0x21u8, msg_type] + be16((12 + body.len()) as u16) + be32((seid >> 32u64) as u32) + be32(seid as u32)
        + be32(seq).subrange(1, 4) + seq![0u8] + body
}

/// Encodes a PFCP message with a SEID (see `session_message`).
pub fn encode_session_message(msg_type: u8, seid: u64, seq: u32, body: &[u8]) -> (m: Vec<u8>)
    requires
        body@.len() + 12 <= 0xFFFF,
    ensures
        m@ == session_message(msg_type, seid, seq, body@),
{
    let len = u16_bytes((12 + body.len()) as u16);
    let hi = u32_bytes((seid >> 32u64) as u32);
    let lo = u32_bytes(seid as u32);
    let sq = u32_bytes(seq);
    let mut m: Vec<u8> = vec![
        0x21u8,
        msg_type,
        len[0],
        len[1],
        hi[0],
        hi[1],
        hi[2],
        hi[3],
        lo[0],
        lo[1],
        lo[2],
        lo[3],
        sq[1],
        sq[2],
        sq[3],
        0u8,
    ];
    let ghost head = m@;
    m.extend_from_slice(body);
    assert(head =~= seq![0x21u8, msg_type] + be16((12 + body@.len()) as u16) + be32((seid >> 32u64) as u32) + be32(
        seid as u32,
    ) + be32(seq).subrange(1, 4) + seq![0u8]);
    m
}

/// The body of the response: Cause "Request accepted" (1), or Cause
/// "Mandatory IE missing" (66) with Offending IE 39 (Report Type) when the
/// Report Type is missing.
pub open spec fn report_response_body(report_type: Option<u8>) -> Seq<u8> {
    match report_type {
        Some(_) => tlv(pfcp_ie::CAUSE, seq![1u8]),
        None => tlv(pfcp_ie::CAUSE, seq![66u8]) + tlv(pfcp_ie::OFFENDING_IE, be16(39)),
    }
}

/// The QFI a Downlink Data Service Information value carries: after the
/// flags, and the PPI when its flag (0x01) is set, when the QFI flag
/// (0x02) is set and the octet is there.
pub open spec fn ddsi_qfi(v: Seq<u8>) -> Option<u8> {
    if v.len() == 0 {
        None
    } else {
        let idx: int = if v[0] & 0x01 != 0 { 2 } else { 1 };
        if v[0] & 0x02 != 0 && idx < v.len() {
            Some(v[idx] & 0x3F)
        } else {
            None
        }
    }
}

/// What a Downlink Data Report value names.
pub open spec fn dldr_info(v: Seq<u8>) -> DownlinkDataInfo {
    let ies = parse_ies(v);
    DownlinkDataInfo {
        pdr_id: match first_of(ies, 56) {
            Some(p) if p.len() >= 2 => Some(u16_at(p, 0)),
            _ => None,
        },
        qfi: match first_of(ies, 45) {
            Some(d) => ddsi_qfi(d),
            None => None,
        },
    }
}

/// A usage summary once one more IE of a Usage Report is read: a URR ID
/// (IE 81, four octets or more) replaces the ID; a Volume Measurement (IE
/// 66) replaces the uplink and downlink volumes it carries (after the
/// total, each when its flag is set and it fits).
pub open spec fn usage_step(acc: UsageReportSummary, ie: IeView) -> UsageReportSummary {
    let (t, v) = ie;
    if t == 81 && v.len() >= 4 {
        UsageReportSummary { urr_id: u32_at(v, 0), ..acc }
    } else if t == 66 && v.len() >= 1 {
        let flags = v[0];
        let after_total: int = if flags & 0x01 != 0 && 9 <= v.len() { 9 } else { 1 };
        let ul_there = flags & 0x02 != 0 && after_total + 8 <= v.len();
        let after_ul: int = if ul_there { after_total + 8 } else { after_total };
        let dl_there = flags & 0x04 != 0 && after_ul + 8 <= v.len();
        UsageReportSummary {
            ul_volume: if ul_there { u64_at(v, after_total) } else { acc.ul_volume },
            dl_volume: if dl_there { u64_at(v, after_ul) } else { acc.dl_volume },
            ..acc
        }
    } else {
        acc
    }
}

/// The summary of the IEs of a Usage Report, read in order from zeros.
pub open spec fn usage_summary(ies: Seq<IeView>) -> UsageReportSummary
    decreases ies.len(),
{
    if ies.len() == 0 {
        UsageReportSummary { urr_id: 0, ul_volume: 0, dl_volume: 0 }
    } else {
        usage_step(usage_summary(ies.drop_last()), ies.last())
    }
}

/// The summaries of the Usage Reports among IEs, in order.
pub open spec fn usage_summaries(ies: Seq<IeView>) -> Seq<UsageReportSummary>
    decreases ies.len(),
{
    if ies.len() == 0 {
        Seq::empty()
    } else {
        let rest = usage_summaries(ies.drop_last());
        if ies.last().0 == 80 {
            rest.push(usage_summary(parse_ies(ies.last().1)))
        } else {
            rest
        }
    }
}

/// Reads what a Downlink Data Report value names (see `dldr_info`).
fn read_dldr(v: &[u8]) -> (d: DownlinkDataInfo)
    ensures
        d == dldr_info(v@),
{
    let ies = ParsedIe::parse_all(v);
    let pdr_id = match ParsedIe::find_ie(ies.as_slice(), 56) {
        Some(ie) => if ie.value.len() >= 2 {
            Some(read_u16(ie.value.as_slice(), 0))
        } else {
            None
        },
        None => None,
    };
    let qfi = match ParsedIe::find_ie(ies.as_slice(), 45) {
        Some(ie) => {
            let d = &ie.value;
            if d.len() == 0 {
                None
            } else {
                let idx: usize = if d[0] & 0x01 != 0 {
                    2
                } else {
                    1
                };
                if d[0] & 0x02 != 0 && idx < d.len() {
                    Some(d[idx] & 0x3F)
                } else {
                    None
                }
            }
        },
        None => None,
    };
    DownlinkDataInfo { pdr_id, qfi }
}

/// Reads a Usage Report value (see `usage_summary`).
fn read_usage_report(v: &[u8]) -> (u: UsageReportSummary)
    ensures
        u == usage_summary(parse_ies(v@)),
{
    let ies = ParsedIe::parse_all(v);
    let ghost views = ie_views(ies@);
    let mut acc = UsageReportSummary { urr_id: 0, ul_volume: 0, dl_volume: 0 };
    let n = ies.len();
    let mut i: usize = 0;
    while i < n
        invariant
            n == ies@.len(),
            i <= n,
            views == ie_views(ies@),
            views == parse_ies(v@),
            forall|k: int| 0 <= k < ies@.len() ==> (#[trigger] ies@[k]).length == ies@[k].value@.len(),
            acc == usage_summary(views.take(i as int)),
        decreases n - i,
    {
        let ie = &ies[i];
        let val = &ie.value;
        proof {
            assert(views.take(i + 1).drop_last() =~= views.take(i as int));
            assert(views.take(i + 1).last() == (ie.ie_type, val@));
        }
        if ie.ie_type == 81 && val.len() >= 4 {
            acc = UsageReportSummary { urr_id: read_u32(val.as_slice(), 0), ..acc };
        } else if ie.ie_type == 66 && val.len() >= 1 {
            let flags = val[0];
            let after_total: usize = if flags & 0x01 != 0 && 9 <= val.len() {
                9
            } else {
                1
            };
            let ul_there = flags & 0x02 != 0 && after_total + 8 <= val.len();
            let after_ul: usize = if ul_there {
                after_total + 8
            } else {
                after_total
            };
            let dl_there = flags & 0x04 != 0 && after_ul + 8 <= val.len();
            let ul = if ul_there {
                read_u64(val.as_slice(), after_total)
            } else {
                acc.ul_volume
            };
            let dl = if dl_there {
                read_u64(val.as_slice(), after_ul)
            } else {
                acc.dl_volume
            };
            acc = UsageReportSummary { ul_volume: ul, dl_volume: dl, ..acc };
        }
        i = i + 1;
    }
    assert(views.take(n as int) =~= views);
    acc
}

/// The answer to a Session Report Request `pkt` (its payload after the
/// 16-octet header): `None` when shorter than the header; else the SEID
/// (octets 4..12) and sequence number (octets 12..15), the first octet of
/// the Report Type IE (39), with the DLDR flag (0x01) the Downlink Data
/// Report (83), the Usage Reports (80), and the response: Cause 1, or
/// Cause 66 with Offending IE 39 without a Report Type.
pub fn handle_session_report(pkt: &[u8]) -> (r: Option<SessionReportAnswer>)
    ensures
        pkt@.len() < 16 ==> r is None,
        pkt@.len() >= 16 ==> (r matches Some(a) && {
            let payload = pkt@.subrange(16, pkt@.len() as int);
            let ies = parse_ies(payload);
            let rt = match first_of(ies, 39) {
                Some(v) if v.len() > 0 => Some(v[0]),
                _ => None,
            };
            let seq = u32_at(seq![0u8] + pkt@.subrange(12, 15), 0);
            &&& a.seid == u64_at(pkt@, 4)
            &&& a.seq == seq
            &&& a.report_type == rt
            &&& a.dldr == (match rt {
                Some(t) if t & 0x01 != 0 => Some(
                    match first_of(ies, 83) {
                        Some(v) => Some(dldr_info(v)),
                        None => None,
                    },
                ),
                _ => None,
            })
            &&& a.usage_reports@ == (if rt is Some {
                usage_summaries(ies)
            } else {
                Seq::empty()
            })
            &&& a.response@ == session_message(
                pfcp_type::SESSION_REPORT_RESPONSE,
                a.seid,
                seq,
                report_response_body(rt),
            )
        }),
{
    if pkt.len() < 16 {
        return None;
    }
    let seid = read_u64(pkt, 4);
    let sq = [0u8, pkt[12], pkt[13], pkt[14]];
    let seq = read_u32(&sq, 0);
    assert(sq@ =~= seq![0u8] + pkt@.subrange(12, 15));
    let payload = &pkt[16..pkt.len()];
    let ies = ParsedIe::parse_all(payload);
    let rt = match ParsedIe::find_ie(ies.as_slice(), 39) {
        Some(ie) => if ie.value.len() > 0 {
            Some(ie.value[0])
        } else {
            None
        },
        None => None,
    };
    let mut body = PfcpMessageBuilder::new();
    match rt {
        Some(_) => {
            body.add_cause_raw(1);
        },
        None => {
            body.add_cause_raw(66);
            body.add_u16(pfcp_ie::OFFENDING_IE, 39);
        },
    }
    let body_bytes = body.build();
    assert(body_bytes@ =~= report_response_body(rt));
    let response = encode_session_message(pfcp_type::SESSION_REPORT_RESPONSE, seid, seq, body_bytes.as_slice());
    if rt.is_none() {
        return Some(SessionReportAnswer { seid, seq, report_type: None, dldr: None, usage_reports: Vec::new(), response });
    }
    let t = rt.unwrap();
    let dldr = if t & 0x01 != 0 {
        Some(
            match ParsedIe::find_ie(ies.as_slice(), 83) {
                Some(ie) => Some(read_dldr(ie.value.as_slice())),
                None => None,
            },
        )
    } else {
        None
    };
    let ghost views = ie_views(ies@);
    let mut usage_reports: Vec<UsageReportSummary> = Vec::new();
    let n = ies.len();
    let mut i: usize = 0;
    while i < n
        invariant
            n == ies@.len(),
            i <= n,
            views == ie_views(ies@),
            usage_reports@ == usage_summaries(views.take(i as int)),
        decreases n - i,
    {
        let ie = &ies[i];
        proof {
            assert(views.take(i + 1).drop_last() =~= views.take(i as int));
            assert(views.take(i + 1).last() == (ie.ie_type, ie.value@));
        }
        if ie.ie_type == 80 {
            usage_reports.push(read_usage_report(ie.value.as_slice()));
        }
        i = i + 1;
    }
    assert(views.take(n as int) =~= views);
    Some(SessionReportAnswer { seid, seq, report_type: rt, dldr, usage_reports, response })
}

/// A value holding the big-endian 64-bit `x` at `off` reads it back.
proof fn lemma_u64_inside(a: Seq<u8>, x: u64, b: Seq<u8>)
    ensures
        u64_at(a + be64(x) + b, a.len() as int) == x,
{
    lemma_u64_roundtrip(x);
    let v = a + be64(x) + b;
    let off = a.len() as int;
    assert forall|i: int| 0 <= i < 8 implies v[off + i] == be64(x)[i] by {}
    assert(u64_at(v, off) == u64_at(be64(x), 0));
}

/// The Volume Measurement (TS 29.244 8.2.50) of a Usage Report reads back
/// at the SMF: a value made of the flags octet (TOVOL 0x01, ULVOL 0x02,
/// DLVOL 0x04, each set exactly when its volume follows), then the total,
/// uplink and downlink volumes that are there, in that order, and anything
/// after them, gives the uplink and downlink volumes written; an absent
/// one leaves the summary's as it was, and the URR ID stays.
pub proof fn lemma_volume_measurement_reads_back(
    acc: UsageReportSummary,
    f: u8,
    total: Option<u64>,
    ul: Option<u64>,
    dl: Option<u64>,
    rest: Seq<u8>,
)
    requires
        (f & 0x01 != 0) == (total is Some),
        (f & 0x02 != 0) == (ul is Some),
        (f & 0x04 != 0) == (dl is Some),
    ensures
        usage_step(acc, (pfcp_ie::VOLUME_MEASUREMENT, seq![f] + opt_be64(total) + opt_be64(ul) + opt_be64(dl) + rest))
            == (UsageReportSummary {
            urr_id: acc.urr_id,
            ul_volume: match ul {
                Some(x) => x,
                None => acc.ul_volume,
            },
            dl_volume: match dl {
                Some(x) => x,
                None => acc.dl_volume,
            },
        }),
{
    let t = opt_be64(total);
    let u = opt_be64(ul);
    let d = opt_be64(dl);
    let v = seq![f] + t + u + d + rest;
    assert(v[0] == f);
    if let Some(x) = ul {
        lemma_u64_inside(seq![f] + t, x, d + rest);
        assert(v =~= (seq![f] + t) + be64(x) + (d + rest));
    }
    if let Some(x) = dl {
        lemma_u64_inside(seq![f] + t + u, x, rest);
        assert(v =~= (seq![f] + t + u) + be64(x) + rest);
    }
    lemma_u64_roundtrip(0);
}

/// The flags octet of a Volume Measurement: the bit of each volume that is
/// there, and the packet count flags above them.
proof fn lemma_volume_flags(t: bool, u: bool, d: bool, k: u8, f: u8)
    by (bit_vector)
    requires
        k < 32,
        f == (if t { 1u8 } else { 0u8 }) + (if u { 2u8 } else { 0u8 }) + (if d { 4u8 } else { 0u8 }) + k * 8,
    ensures
        (f & 0x01 != 0) == t,
        (f & 0x02 != 0) == u,
        (f & 0x04 != 0) == d,
{
}

/// The low three bits of a Volume Measurement flags octet.
proof fn lemma_octet8_low3(b1: bool, b2: bool, b3: bool, b4: bool, b5: bool, b6: bool)
    ensures
        ({
            let f = octet8(b1, b2, b3, b4, b5, b6, false, false);
            &&& (f & 0x01 != 0) == b1
            &&& (f & 0x02 != 0) == b2
            &&& (f & 0x04 != 0) == b3
        }),
{
    reveal(octet8);
    let f = octet8(b1, b2, b3, b4, b5, b6, false, false);
    let k: u8 = ((if b4 { 1int } else { 0int }) + (if b5 { 2int } else { 0int }) + (if b6 { 4int } else { 0int })) as u8;
    assert(f == (if b1 { 1u8 } else { 0u8 }) + (if b2 { 2u8 } else { 0u8 }) + (if b3 { 4u8 } else { 0u8 }) + k * 8);
    lemma_volume_flags(b1, b2, b3, k, f);
}

/// The Volume Measurement the UPF writes in a Usage Report reads back at
/// the SMF with the uplink and downlink volumes it carries.
#[verifier::spinoff_prover]
#[verifier::rlimit(60)]
pub proof fn lemma_upf_volume_measurement_reads_back(acc: UsageReportSummary, vm: VolumeMeasurement)
    ensures
        usage_step(acc, (pfcp_ie::VOLUME_MEASUREMENT, volume_measurement_value(vm))) == (UsageReportSummary {
            urr_id: acc.urr_id,
            ul_volume: match vm.uplink_volume {
                Some(x) => x,
                None => acc.ul_volume,
            },
            dl_volume: match vm.downlink_volume {
                Some(x) => x,
                None => acc.dl_volume,
            },
        }),
{
    let f = octet8(
        vm.total_volume.is_some(),
        vm.uplink_volume.is_some(),
        vm.downlink_volume.is_some(),
        vm.total_packets.is_some(),
        vm.uplink_packets.is_some(),
        vm.downlink_packets.is_some(),
        false,
        false,
    );
    lemma_octet8_low3(
        vm.total_volume.is_some(),
        vm.uplink_volume.is_some(),
        vm.downlink_volume.is_some(),
        vm.total_packets.is_some(),
        vm.uplink_packets.is_some(),
        vm.downlink_packets.is_some(),
    );
    let rest = opt_be64(vm.total_packets) + opt_be64(vm.uplink_packets) + opt_be64(vm.downlink_packets);
    assert(volume_measurement_value(vm) =~= seq![f] + opt_be64(vm.total_volume) + opt_be64(vm.uplink_volume)
        + opt_be64(vm.downlink_volume) + rest);
    lemma_volume_measurement_reads_back(acc, f, vm.total_volume, vm.uplink_volume, vm.downlink_volume, rest);
}

/// IEs, one optional.
pub open spec fn opt_view(t: u16, v: Option<Seq<u8>>) -> Seq<IeView> {
    match v {
        Some(x) => seq![(t, x)],
        None => Seq::empty(),
    }
}

/// A 32-bit value's four octets, when there is one.
pub open spec fn opt_be32(v: Option<u32>) -> Option<Seq<u8>> {
    match v {
        Some(x) => Some(be32(x)),
        None => None,
    }
}

/// The IEs of the Usage Report the UPF writes, in order.
pub open spec fn usage_report_ies(r: UsageReport) -> Seq<IeView> {
    seq![(pfcp_ie::URR_ID, be32(r.urr_id))] + (seq![(pfcp_ie::UR_SEQN, be32(r.ur_seqn))] + (seq![
        (pfcp_ie::USAGE_REPORT_TRIGGER, trigger_octets(r.trigger)),
    ] + (opt_view(pfcp_ie::START_TIME, opt_be32(r.start_time)) + (opt_view(pfcp_ie::END_TIME, opt_be32(r.end_time))
        + (opt_view(
        pfcp_ie::VOLUME_MEASUREMENT,
        match r.volume_measurement {
            Some(v) => Some(volume_measurement_value(v)),
            None => None,
        },
    ) + (opt_view(pfcp_ie::DURATION_MEASUREMENT, opt_be32(r.duration_measurement)) + (opt_view(
        pfcp_ie::TIME_OF_FIRST_PACKET,
        opt_be32(r.time_of_first_packet),
    ) + opt_view(pfcp_ie::TIME_OF_LAST_PACKET, opt_be32(r.time_of_last_packet)))))))))
}

proof fn lemma_tlvs_concat(a: Seq<IeView>, b: Seq<IeView>)
    ensures
        tlvs(a + b) == tlvs(a) + tlvs(b),
    decreases a.len(),
{
    if a.len() == 0 {
        assert(a + b =~= b);
        assert(tlvs(a) + tlvs(b) =~= tlvs(b));
    } else {
        assert((a + b).drop_first() =~= a.drop_first() + b);
        lemma_tlvs_concat(a.drop_first(), b);
        assert(tlvs(a + b) =~= tlvs(a) + tlvs(b));
    }
}

proof fn lemma_tlvs_opt(t: u16, v: Option<Seq<u8>>)
    ensures
        tlvs(opt_view(t, v)) == opt_tlv(t, v),
{
    match v {
        Some(x) => {
            assert(seq![(t, x)].drop_first() =~= Seq::<IeView>::empty());
            assert(tlvs(Seq::<IeView>::empty()) == Seq::<u8>::empty());
            assert(tlvs(seq![(t, x)]) == tlv(t, x) + tlvs(Seq::<IeView>::empty()));
            assert(tlvs(seq![(t, x)]) =~= tlv(t, x));
        },
        None => {},
    }
}

/// Three IEs then six optional ones, in TLV form.
#[verifier::spinoff_prover]
proof fn lemma_tlvs_shape(
    x1: IeView,
    x2: IeView,
    x3: IeView,
    t4: u16,
    v4: Option<Seq<u8>>,
    t5: u16,
    v5: Option<Seq<u8>>,
    t6: u16,
    v6: Option<Seq<u8>>,
    t7: u16,
    v7: Option<Seq<u8>>,
    t8: u16,
    v8: Option<Seq<u8>>,
    t9: u16,
    v9: Option<Seq<u8>>,
)
    ensures
        tlvs(
            seq![x1] + (seq![x2] + (seq![x3] + (opt_view(t4, v4) + (opt_view(t5, v5) + (opt_view(t6, v6) + (
            opt_view(t7, v7) + (opt_view(t8, v8) + opt_view(t9, v9)))))))),
        ) == tlv(x1.0, x1.1) + (tlv(x2.0, x2.1) + (tlv(x3.0, x3.1) + (opt_tlv(t4, v4) + (opt_tlv(t5, v5) + (
            opt_tlv(t6, v6) + (opt_tlv(t7, v7) + (opt_tlv(t8, v8) + opt_tlv(t9, v9)))))))),
{
    let l9 = opt_view(t9, v9);
    let l8 = opt_view(t8, v8) + l9;
    let l7 = opt_view(t7, v7) + l8;
    let l6 = opt_view(t6, v6) + l7;
    let l5 = opt_view(t5, v5) + l6;
    let l4 = opt_view(t4, v4) + l5;
    let l3 = seq![x3] + l4;
    let l2 = seq![x2] + l3;
    let l1 = seq![x1] + l2;
    lemma_tlvs_opt(t9, v9);
    lemma_tlvs_opt(t8, v8);
    lemma_tlvs_opt(t7, v7);
    lemma_tlvs_opt(t6, v6);
    lemma_tlvs_opt(t5, v5);
    lemma_tlvs_opt(t4, v4);
    lemma_tlvs_concat(opt_view(t8, v8), l9);
    lemma_tlvs_concat(opt_view(t7, v7), l8);
    lemma_tlvs_concat(opt_view(t6, v6), l7);
    lemma_tlvs_concat(opt_view(t5, v5), l6);
    lemma_tlvs_concat(opt_view(t4, v4), l5);
    assert(l3.drop_first() =~= l4);
    assert(l2.drop_first() =~= l3);
    assert(l1.drop_first() =~= l2);
    assert(tlvs(l3) == tlv(x3.0, x3.1) + tlvs(l4));
    assert(tlvs(l2) == tlv(x2.0, x2.1) + tlvs(l3));
    assert(tlvs(l1) == tlv(x1.0, x1.1) + tlvs(l2));
}

/// Nine byte strings joined, grouped either way.
proof fn lemma_assoc9(
    a1: Seq<u8>,
    a2: Seq<u8>,
    a3: Seq<u8>,
    a4: Seq<u8>,
    a5: Seq<u8>,
    a6: Seq<u8>,
    a7: Seq<u8>,
    a8: Seq<u8>,
    a9: Seq<u8>,
)
    ensures
        a1 + a2 + a3 + a4 + a5 + a6 + a7 + a8 + a9 == a1 + (a2 + (a3 + (a4 + (a5 + (a6 + (a7 + (a8 + a9))))))),
{
    assert(a1 + a2 + a3 + a4 + a5 + a6 + a7 + a8 + a9 =~= a1 + (a2 + (a3 + (a4 + (a5 + (a6 + (a7 + (a8 + a9))))))));
}

/// An optional 32-bit IE is the optional IE of its four octets.
proof fn lemma_opt_u32_ie(t: u16, v: Option<u32>)
    ensures
        opt_u32_ie(t, v) == opt_tlv(t, opt_be32(v)),
{
}

/// The Usage Report the UPF writes is its IEs in TLV form.
proof fn lemma_usage_report_tlvs(r: UsageReport)
    ensures
        usage_report_value(r) == tlvs(usage_report_ies(r)),
{
    let vm = match r.volume_measurement {
        Some(v) => Some(volume_measurement_value(v)),
        None => None,
    };
    lemma_tlvs_shape(
        (pfcp_ie::URR_ID, be32(r.urr_id)),
        (pfcp_ie::UR_SEQN, be32(r.ur_seqn)),
        (pfcp_ie::USAGE_REPORT_TRIGGER, trigger_octets(r.trigger)),
        pfcp_ie::START_TIME,
        opt_be32(r.start_time),
        pfcp_ie::END_TIME,
        opt_be32(r.end_time),
        pfcp_ie::VOLUME_MEASUREMENT,
        vm,
        pfcp_ie::DURATION_MEASUREMENT,
        opt_be32(r.duration_measurement),
        pfcp_ie::TIME_OF_FIRST_PACKET,
        opt_be32(r.time_of_first_packet),
        pfcp_ie::TIME_OF_LAST_PACKET,
        opt_be32(r.time_of_last_packet),
    );
    lemma_opt_u32_ie(pfcp_ie::START_TIME, r.start_time);
    lemma_opt_u32_ie(pfcp_ie::END_TIME, r.end_time);
    lemma_opt_u32_ie(pfcp_ie::DURATION_MEASUREMENT, r.duration_measurement);
    lemma_opt_u32_ie(pfcp_ie::TIME_OF_FIRST_PACKET, r.time_of_first_packet);
    lemma_opt_u32_ie(pfcp_ie::TIME_OF_LAST_PACKET, r.time_of_last_packet);
    lemma_assoc9(
        tlv(pfcp_ie::URR_ID, be32(r.urr_id)),
        tlv(pfcp_ie::UR_SEQN, be32(r.ur_seqn)),
        tlv(pfcp_ie::USAGE_REPORT_TRIGGER, trigger_octets(r.trigger)),
        opt_tlv(pfcp_ie::START_TIME, opt_be32(r.start_time)),
        opt_tlv(pfcp_ie::END_TIME, opt_be32(r.end_time)),
        opt_tlv(pfcp_ie::VOLUME_MEASUREMENT, vm),
        opt_tlv(pfcp_ie::DURATION_MEASUREMENT, opt_be32(r.duration_measurement)),
        opt_tlv(pfcp_ie::TIME_OF_FIRST_PACKET, opt_be32(r.time_of_first_packet)),
        opt_tlv(pfcp_ie::TIME_OF_LAST_PACKET, opt_be32(r.time_of_last_packet)),
    );
}

/// IEs of other types than URR ID and Volume Measurement leave a usage
/// summary as it is.
proof fn lemma_summary_ignores(a: Seq<IeView>, b: Seq<IeView>)
    requires
        forall|i: int| 0 <= i < b.len() ==> (#[trigger] b[i]).0 != 81 && b[i].0 != 66,
    ensures
        usage_summary(a + b) == usage_summary(a),
    decreases b.len(),
{
    if b.len() > 0 {
        assert((a + b).drop_last() =~= a + b.drop_last());
        assert((a + b).last() == b.last());
        assert(b.last() == b[b.len() - 1]);
        lemma_summary_ignores(a, b.drop_last());
    } else {
        assert(a + b =~= a);
    }
}

/// One more IE at the end of a Usage Report is one more step.
proof fn lemma_summary_push(a: Seq<IeView>, x: IeView)
    ensures
        usage_summary(a + seq![x]) == usage_step(usage_summary(a), x),
{
    assert((a + seq![x]).drop_last() =~= a);
}

/// The Usage Report the UPF writes reads back at the SMF: its URR ID, and
/// the uplink and downlink volumes of its Volume Measurement (0 without
/// one, or without that volume).
#[verifier::spinoff_prover]
#[verifier::rlimit(60)]
pub proof fn lemma_upf_usage_report_reads_back(r: UsageReport)
    ensures
        usage_summary(parse_ies(usage_report_value(r))) == (UsageReportSummary {
            urr_id: r.urr_id,
            ul_volume: match r.volume_measurement {
                Some(v) => match v.uplink_volume {
                    Some(x) => x,
                    None => 0,
                },
                None => 0,
            },
            dl_volume: match r.volume_measurement {
                Some(v) => match v.downlink_volume {
                    Some(x) => x,
                    None => 0,
                },
                None => 0,
            },
        }),
{
    let ies = usage_report_ies(r);
    lemma_usage_report_tlvs(r);
    assert forall|i: int| 0 <= i < ies.len() implies (#[trigger] ies[i]).1.len() <= 0xFFFF by {
        lemma_vm_len(r);
    }
    lemma_parse_tlvs(ies);
    let vm = match r.volume_measurement {
        Some(v) => Some(volume_measurement_value(v)),
        None => None,
    };
    let zero = UsageReportSummary { urr_id: 0, ul_volume: 0, dl_volume: 0 };
    let head = seq![(pfcp_ie::URR_ID, be32(r.urr_id))];
    let mid = seq![(pfcp_ie::UR_SEQN, be32(r.ur_seqn))] + (seq![
        (pfcp_ie::USAGE_REPORT_TRIGGER, trigger_octets(r.trigger)),
    ] + (opt_view(pfcp_ie::START_TIME, opt_be32(r.start_time)) + opt_view(pfcp_ie::END_TIME, opt_be32(r.end_time))));
    let v = opt_view(pfcp_ie::VOLUME_MEASUREMENT, vm);
    let tail = opt_view(pfcp_ie::DURATION_MEASUREMENT, opt_be32(r.duration_measurement)) + (opt_view(
        pfcp_ie::TIME_OF_FIRST_PACKET,
        opt_be32(r.time_of_first_packet),
    ) + opt_view(pfcp_ie::TIME_OF_LAST_PACKET, opt_be32(r.time_of_last_packet)));
    assert(ies =~= head + mid + v + tail);
    // the URR ID
    lemma_u32_roundtrip(r.urr_id);
    assert(Seq::<IeView>::empty() + head =~= head);
    lemma_summary_push(Seq::<IeView>::empty(), (pfcp_ie::URR_ID, be32(r.urr_id)));
    let s1 = UsageReportSummary { urr_id: r.urr_id, ul_volume: 0, dl_volume: 0 };
    assert(usage_summary(head) == s1);
    assert forall|i: int| 0 <= i < mid.len() implies (#[trigger] mid[i]).0 != 81 && mid[i].0 != 66 by {}
    lemma_summary_ignores(head, mid);
    // the Volume Measurement
    match r.volume_measurement {
        Some(m) => {
            assert(v == seq![(pfcp_ie::VOLUME_MEASUREMENT, volume_measurement_value(m))]);
            lemma_summary_push(head + mid, (pfcp_ie::VOLUME_MEASUREMENT, volume_measurement_value(m)));
            lemma_upf_volume_measurement_reads_back(s1, m);
        },
        None => {
            assert(head + mid + v =~= head + mid);
        },
    }
    assert forall|i: int| 0 <= i < tail.len() implies (#[trigger] tail[i]).0 != 81 && tail[i].0 != 66 by {}
    lemma_summary_ignores(head + mid + v, tail);
}

/// The values of a Usage Report's IEs fit a 16-bit length.
proof fn lemma_vm_len(r: UsageReport)
    ensures
        match r.volume_measurement {
            Some(v) => volume_measurement_value(v).len() <= 49,
            None => true,
        },
        trigger_octets(r.trigger).len() == 3,
{
}

} // verus!
