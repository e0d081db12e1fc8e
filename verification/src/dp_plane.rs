//! The data plane's decisions: sessions installed from PFCP, what becomes
//! of each uplink G-PDU and downlink IP packet, downlink buffers flushed,
//! usage reports collected and the N3 path kept. Sockets, the TUN device,
//! rate policing and the report channel are the caller's: the functions
//! here take what those produced and say what to send or write.

use vstd::prelude::*;
use std::collections::HashMap;
use vstd::std_specs::hash::spec_keys_iter;
use vstd::std_specs::iter::IteratorSpec;
use crate::dp_manager::{SessionManager, ip_key, session_stat, unlinked_ul, unlinked_ip, unlinked_ul_of, unlinked_ip_of};
use crate::dp_session::{
    DataPlaneSession, PeerAddr, QerGate, first_pdr, urrs_fit, urrs_recorded, urrs_refuse, same_but_urrs,
    buffer_capacity, same_but_buffer,
};
use crate::dp_urr::DataPlaneUrr;
use crate::ip_qos::{apply_dscp_to_ip_packet, dscp_marked};
use crate::gtpu::TUN_MTU;
use crate::dp_rules::{
    DataPlanePdr, DataPlaneFar, DataPlaneQer, PacketTuple, FarDecision, FAR_ACTION_FORW, SRC_INTF_ACCESS,
    SRC_INTF_CORE, tuple_of, decision_of,
};
use crate::dp_urr::{bump, elapsed_reached};
use crate::gtpu::{
    gtpu_msg_type, parse_gtpu_header, gtpu_header_len, build_gtpu_echo_response, echo_message,
    parse_gtpu_error_indication, error_indication_scan, parse_gtpu_recovery_ie, recovery_scan,
    build_gtpu_error_indication, error_indication, extract_qfi_from_gtp_header, gtpu_qfi, IP_VERSION_4,
    encapsulate_dl_gpdu, dl_gpdu, GTPU_PORT, build_gtpu_echo_request,
};
use crate::gtpu_path::{GtpuPathTable, GtpuPeerState, peer_key, answered};
use crate::wire::{u16_at, u32_at, u32_of};

verus! {

broadcast use vstd::std_specs::hash::group_hash_axioms;

/// Counters of the data plane.
#[derive(Debug, Clone, Copy)]
pub struct DataPlaneStats {
    pub ul_packets: u64,
    pub dl_packets: u64,
    pub ul_bytes: u64,
    pub dl_bytes: u64,
    pub dropped_packets: u64,
    /// Uplink G-PDUs whose inner source address was not the UE's
    pub spoofed_packets: u64,
    /// Packets larger than the TUN MTU
    pub oversize_packets: u64,
}

impl Default for DataPlaneStats {
    fn default() -> (s: Self)
        ensures
            s.ul_packets == 0 && s.dl_packets == 0 && s.ul_bytes == 0 && s.dl_bytes == 0,
            s.dropped_packets == 0 && s.spoofed_packets == 0 && s.oversize_packets == 0,
    {
        DataPlaneStats {
            ul_packets: 0,
            dl_packets: 0,
            ul_bytes: 0,
            dl_bytes: 0,
            dropped_packets: 0,
            spoofed_packets: 0,
            oversize_packets: 0,
        }
    }
}

/// What the data plane raises toward the PFCP layer.
#[derive(Debug, Clone, Copy, PartialEq, Eq)]
pub enum UpfReportEvent {
    /// The first downlink packet buffered under a BUFF+NOCP FAR (TS 29.244
    /// 7.5.8.2)
    DownlinkDataReport { upf_seid: u64, smf_seid: u64, pdr_id: u16, qfi: Option<u8> },
    /// A GTP-U Error Indication for one of our downlink tunnels (TS 29.244
    /// 7.5.8.4)
    ErrorIndicationReport { upf_seid: u64, smf_seid: u64, remote_teid: u32, peer_ipv4: Option<[u8; 4]> },
}

/// A usage report due for a URR.
#[derive(Debug, Clone, Copy)]
pub struct UrrReportEntry {
    pub upf_seid: u64,
    pub smf_seid: u64,
    pub urr_id: u32,
    /// The UR-SEQN taken from the URR (TS 29.244 8.2.60)
    pub ur_seqn: u32,
    pub total_bytes: u64,
    pub ul_bytes: u64,
    pub dl_bytes: u64,
    pub total_pkts: u64,
    pub ul_pkts: u64,
    pub dl_pkts: u64,
}

/// Why a packet was dropped.
#[derive(Debug, Clone, Copy, PartialEq, Eq)]
pub enum DropCause {
    /// The GTP-U header does not fit
    Malformed,
    /// A G-PDU without a payload
    NoPayload,
    /// No session for the packet
    NoSession,
    /// The inner source address is not the UE's (TS 23.501 5.6.1)
    Spoofed,
    /// No PDR matched (TS 23.501 5.8.2)
    NoPdr,
    /// The QER's gate is closed
    GateClosed,
    /// Above the QER's bit rate
    Policed,
    /// The FAR drops
    FarDrop,
    /// The FAR buffers, which does not forward uplink
    NotForwarded,
    /// A URR's quota is used up
    QuotaExhausted,
    /// A URR's octet counter is full
    CountersFull,
    /// Larger than the TUN MTU
    Oversize,
    /// The downlink buffer is full
    BufferFull,
}

/// A G-PDU that passed the checks of its session: what remains to be done
/// with it once its rate has been policed.
#[derive(Debug, Clone)]
pub struct UplinkPacket {
    /// The key of its session
    pub upf_seid: u64,
    /// The QER to police the packet against, when its gate is open
    pub police: Option<DataPlaneQer>,
    pub far_id: Option<u32>,
    pub urr_ids: Vec<u32>,
    /// The DSCP to mark the inner packet with
    pub dscp: Option<u8>,
    /// Where the inner IP packet starts
    pub payload_offset: usize,
}

/// What becomes of a GTP-U message received on N3.
#[derive(Debug, Clone)]
pub enum UplinkVerdict {
    /// Answer an Echo Request with this Echo Response
    EchoReply(Vec<u8>),
    /// An Error Indication: the report to raise, when the TEID is one of
    /// ours and the message could be read
    PeerError(Option<UpfReportEvent>),
    /// An Echo Response was taken; whether the peer restarted
    EchoAnswered { restarted: bool },
    /// Nothing to do
    Ignored,
    /// A G-PDU for no session, dropped; the Error Indication to send back
    /// (not for TEID 0, TS 29.281 7.3.1)
    UnknownTunnel(Option<Vec<u8>>),
    Dropped(DropCause),
    /// A G-PDU to police, then to finish with `commit_uplink`
    Accepted(UplinkPacket),
}

/// A counter plus `n`, wrapping.
pub open spec fn wrap_add(c: u64, n: u64) -> u64 {
    if c + n > 0xFFFF_FFFF_FFFF_FFFF {
        (c + n - 0x1_0000_0000_0000_0000) as u64
    } else {
        (c + n) as u64
    }
}

/// The counters once a packet is dropped.
pub open spec fn counted_drop(s: DataPlaneStats) -> DataPlaneStats {
    DataPlaneStats { dropped_packets: bump(s.dropped_packets), ..s }
}

/// The counters once a spoofed packet is dropped.
pub open spec fn counted_spoof(s: DataPlaneStats) -> DataPlaneStats {
    DataPlaneStats { dropped_packets: bump(s.dropped_packets), spoofed_packets: bump(s.spoofed_packets), ..s }
}

/// The counters once an oversize packet is dropped.
pub open spec fn counted_oversize(s: DataPlaneStats) -> DataPlaneStats {
    DataPlaneStats { dropped_packets: bump(s.dropped_packets), oversize_packets: bump(s.oversize_packets), ..s }
}

/// The SEID of the session an uplink G-PDU belongs to: the one its TEID
/// leads to, else the one its inner IPv4 source address leads to.
pub open spec fn ul_seid(m: SessionManager, teid: u32, ip: Seq<u8>) -> Option<u64> {
    if m.ul_index().contains_key(teid) && m.sessions().contains_key(m.ul_index()[teid]) {
        Some(m.ul_index()[teid])
    } else if ip.len() >= 20 && (ip[0] >> 4u8) & 0x0F == IP_VERSION_4 {
        let k = u32_of(ip[12], ip[13], ip[14], ip[15]);
        if m.ip_index().contains_key(k) && m.sessions().contains_key(m.ip_index()[k]) {
            Some(m.ip_index()[k])
        } else {
            None
        }
    } else {
        None
    }
}

/// Whether an uplink packet's inner IPv4 source address is not the UE
/// address of its session (checked only when the session has one).
pub open spec fn spoofed(s: DataPlaneSession, ip: Seq<u8>) -> bool {
    &&& s.ue_ipv4 is Some
    &&& ip.len() >= 20
    &&& ip[0] >> 4u8 == IP_VERSION_4
    &&& ip.subrange(12, 16) != s.ue_ipv4.unwrap()@
}

/// The QER a matched rule polices against, when it exists and its gate
/// for the direction is open.
pub open spec fn police_qer(s: DataPlaneSession, qer_id: Option<u32>) -> Option<DataPlaneQer> {
    match qer_id {
        Some(q) => if s.qers@.contains_key(q) {
            Some(s.qers@[q])
        } else {
            None
        },
        None => None,
    }
}

/// The DSCP of the QER a matched rule names, when it sets one.
pub open spec fn qer_dscp(s: DataPlaneSession, qer_id: Option<u32>) -> Option<u8> {
    match police_qer(s, qer_id) {
        Some(q) => if q.dscp != 0 {
            Some(q.dscp)
        } else {
            None
        },
        None => None,
    }
}

/// Whether the QER a matched rule names has its gate for the direction
/// closed.
pub open spec fn gate_closed(s: DataPlaneSession, qer_id: Option<u32>, is_uplink: bool) -> bool {
    match police_qer(s, qer_id) {
        Some(q) => !(if is_uplink {
            q.ul_gate_open
        } else {
            q.dl_gate_open
        }),
        None => false,
    }
}

/// What becomes of a G-PDU whose header is `hl` octets long: dropped
/// without a payload; for no session, dropped with an Error Indication
/// for a TEID other than 0; dropped when spoofed, when no uplink PDR
/// matches or when the matched QER's gate is closed; else accepted with
/// what its PDR and QER say.
pub open spec fn gpdu_verdict(m: SessionManager, local: [u8; 4], pkt: Seq<u8>, hl: int, r: UplinkVerdict) -> bool {
    let teid = u32_at(pkt, 4);
    let ip = pkt.subrange(hl, pkt.len() as int);
    if pkt.len() <= hl {
        r == UplinkVerdict::Dropped(DropCause::NoPayload)
    } else {
        match ul_seid(m, teid, ip) {
            None => r matches UplinkVerdict::UnknownTunnel(ei) && (if teid != 0 {
                ei matches Some(v) && v@ == error_indication(teid, local)
            } else {
                ei is None
            }),
            Some(k) => {
                let s = m.sessions()[k];
                if spoofed(s, ip) {
                    r == UplinkVerdict::Dropped(DropCause::Spoofed)
                } else {
                    match first_pdr(s.pdrs@, SRC_INTF_ACCESS, tuple_of(ip), gtpu_qfi(pkt)) {
                        None => r == UplinkVerdict::Dropped(DropCause::NoPdr),
                        Some(i) => {
                            let pdr = s.pdrs@[i];
                            if gate_closed(s, pdr.qer_id, true) {
                                r == UplinkVerdict::Dropped(DropCause::GateClosed)
                            } else {
                                r matches UplinkVerdict::Accepted(a) && a.upf_seid == k && a.police == police_qer(
                                    s,
                                    pdr.qer_id,
                                ) && a.far_id == pdr.far_id && a.urr_ids@ == pdr.urr_ids@ && a.dscp == qer_dscp(
                                    s,
                                    pdr.qer_id,
                                ) && a.payload_offset == hl
                            }
                        },
                    }
                }
            },
        }
    }
}

/// The report an Error Indication payload raises: for the TEID it names,
/// a session sending downlink with that TEID, when there is one.
pub open spec fn ei_report_ok(m: SessionManager, payload: Seq<u8>, e: Option<UpfReportEvent>) -> bool {
    match error_indication_scan(payload, 0, None, None) {
        None => e is None,
        Some((teid, peer)) => match e {
            None => forall|k: u64| #[trigger] m.sessions().contains_key(k) ==> m.sessions()[k].dl_teid != teid,
            Some(ev) => ev matches UpfReportEvent::ErrorIndicationReport { upf_seid, smf_seid, remote_teid, peer_ipv4 }
                && remote_teid == teid && (match peer_ipv4 {
                Some(a) => peer == Some(a@),
                None => peer is None,
            }) && exists|k: u64|
                #[trigger] m.sessions().contains_key(k) && m.sessions()[k].dl_teid == teid && m.sessions()[k].upf_seid
                    == upf_seid && m.sessions()[k].smf_seid == smf_seid,
        },
    }
}

/// What finishing an accepted G-PDU gives.
#[derive(Debug, Clone)]
pub enum UplinkDelivery {
    Dropped(DropCause),
    /// The inner packet to write to the TUN device
    Write(Vec<u8>),
}

/// The decision of the FAR a rule names: `None` without one; an unknown
/// FAR drops.
pub open spec fn far_verdict(s: DataPlaneSession, far_id: Option<u32>) -> Option<FarDecision> {
    match far_id {
        Some(f) => Some(
            if s.fars@.contains_key(f) {
                decision_of(s.fars@[f])
            } else {
                FarDecision::Drop
            },
        ),
        None => None,
    }
}

/// A packet with its DSCP set when one is given and it can be set.
pub open spec fn with_dscp(p: Seq<u8>, dscp: Option<u8>) -> Seq<u8> {
    match dscp {
        Some(d) => match dscp_marked(p, d) {
            Some(q) => q,
            None => p,
        },
        None => p,
    }
}

/// A session whose URRs counted a packet, when any are listed.
pub open spec fn urrs_counted(s: DataPlaneSession, t: DataPlaneSession, ids: Seq<u32>, bytes: u64, is_uplink: bool, now: u64) -> bool {
    &&& t.urrs@ == (if ids.len() == 0 {
        s.urrs@
    } else {
        urrs_recorded(s.urrs@, ids, bytes, is_uplink, now)
    })
    &&& same_but_urrs(s, t)
}

/// Whether every URR's counters can take `n` more packets of `bytes`
/// octets (see `urrs_fit`).
pub fn urrs_have_room(m: &HashMap<u32, DataPlaneUrr>, bytes: u64, n: usize) -> (ok: bool)
    ensures
        ok == urrs_fit(m@, bytes, n as int),
{
    let keys = keys_of(m);
    let k = keys.len();
    let nn: u128 = n as u128;
    let bb: u128 = bytes as u128;
    assert(nn * bb <= 0xFFFF_FFFF_FFFF_FFFFu128 * 0xFFFF_FFFF_FFFF_FFFFu128) by (nonlinear_arith)
        requires
            nn <= 0xFFFF_FFFF_FFFF_FFFFu128,
            bb <= 0xFFFF_FFFF_FFFF_FFFFu128,
    ;
    let extra: u128 = nn * bb;
    let mut i: usize = 0;
    while i < k
        invariant
            k == keys@.len(),
            i <= k,
            keys@.to_set() == m@.dom(),
            extra == n * bytes,
            extra <= 0xFFFF_FFFF_FFFF_FFFFu128 * 0xFFFF_FFFF_FFFF_FFFFu128,
            forall|j: int| 0 <= j < i ==> {
                let u = #[trigger] m@[keys@[j]];
                &&& u.acc_total_bytes + n * bytes <= 0xFFFF_FFFF_FFFF_FFFF
                &&& u.acc_ul_bytes + n * bytes <= 0xFFFF_FFFF_FFFF_FFFF
                &&& u.acc_dl_bytes + n * bytes <= 0xFFFF_FFFF_FFFF_FFFF
            },
        decreases k - i,
    {
        let id = keys[i];
        assert(keys@.to_set().contains(id));
        let u = m.get(&id).unwrap();
        if (u.acc_total_bytes as u128) + extra > 0xFFFF_FFFF_FFFF_FFFF || (u.acc_ul_bytes as u128) + extra
            > 0xFFFF_FFFF_FFFF_FFFF || (u.acc_dl_bytes as u128) + extra > 0xFFFF_FFFF_FFFF_FFFF {
            assert(m@.contains_key(id) && m@[id] == *u);
            return false;
        }
        i = i + 1;
    }
    proof {
        assert forall|id: u32| #[trigger] m@.contains_key(id) implies {
            &&& m@[id].acc_total_bytes + n * bytes <= 0xFFFF_FFFF_FFFF_FFFF
            &&& m@[id].acc_ul_bytes + n * bytes <= 0xFFFF_FFFF_FFFF_FFFF
            &&& m@[id].acc_dl_bytes + n * bytes <= 0xFFFF_FFFF_FFFF_FFFF
        } by {
            assert(keys@.to_set().contains(id));
            let j = choose|j: int| 0 <= j < k && keys@[j] == id;
            let u = m@[keys@[j]];
        }
    }
    true
}

/// A downlink packet that passed the checks of its session: what remains
/// to be done with it once its rate has been policed.
#[derive(Debug, Clone)]
pub struct DownlinkPacket {
    /// The key of its session
    pub upf_seid: u64,
    /// The QER to police the packet against, when its gate is open
    pub police: Option<DataPlaneQer>,
    pub far_id: Option<u32>,
    pub urr_ids: Vec<u32>,
    /// The DSCP for the outer header
    pub dscp: Option<u8>,
    /// The QFI to carry in the PDU Session Container
    pub qfi: Option<u8>,
}

/// What becomes of an IP packet read from the TUN device.
#[derive(Debug, Clone)]
pub enum DownlinkVerdict {
    /// An empty read
    Ignored,
    Dropped(DropCause),
    /// A packet to police, then to finish with `commit_downlink`
    Accepted(DownlinkPacket),
}

/// What finishing an accepted downlink packet gives.
#[derive(Debug, Clone)]
pub enum DownlinkDelivery {
    Dropped(DropCause),
    /// Buffered under a BUFF FAR; the report to raise when this packet
    /// starts the buffering and the FAR asks for it (NOCP)
    Buffered(Option<UpfReportEvent>),
    /// The G-PDU to send to `to`, with `tos` as the outer ToS octet
    Send { packet: Vec<u8>, to: PeerAddr, tos: u8 },
}

/// The IPv4 destination address of a downlink packet, when it is IPv4.
pub open spec fn dl_dst(p: Seq<u8>) -> Option<Seq<u8>> {
    if (p[0] >> 4u8) & 0x0F == IP_VERSION_4 && p.len() >= 20 {
        Some(p.subrange(16, 20))
    } else {
        None
    }
}

/// The SEID of the session a downlink packet is for: the one its IPv4
/// destination address leads to.
pub open spec fn dl_seid(m: SessionManager, p: Seq<u8>) -> Option<u64> {
    if (p[0] >> 4u8) & 0x0F == IP_VERSION_4 && p.len() >= 20 {
        let k = u32_of(p[16], p[17], p[18], p[19]);
        if m.ip_index().contains_key(k) && m.sessions().contains_key(m.ip_index()[k]) {
            Some(m.ip_index()[k])
        } else {
            None
        }
    } else {
        None
    }
}

/// What becomes of a non-empty downlink packet: dropped above the TUN
/// MTU, for no session, when no downlink PDR matches or when the matched
/// QER's gate is closed; else accepted with what its PDR and QER say, the
/// QFI being the QER's, else the session's.
pub open spec fn dl_verdict(m: SessionManager, p: Seq<u8>, r: DownlinkVerdict) -> bool {
    if p.len() > TUN_MTU {
        r == DownlinkVerdict::Dropped(DropCause::Oversize)
    } else {
        match dl_seid(m, p) {
            None => r == DownlinkVerdict::Dropped(DropCause::NoSession),
            Some(k) => {
                let s = m.sessions()[k];
                let tuple = if (p[0] >> 4u8) & 0x0F == IP_VERSION_4 {
                    tuple_of(p)
                } else {
                    None
                };
                match first_pdr(s.pdrs@, SRC_INTF_CORE, tuple, None) {
                    None => r == DownlinkVerdict::Dropped(DropCause::NoPdr),
                    Some(i) => {
                        let pdr = s.pdrs@[i];
                        if gate_closed(s, pdr.qer_id, false) {
                            r == DownlinkVerdict::Dropped(DropCause::GateClosed)
                        } else {
                            let qfi = match police_qer(s, pdr.qer_id) {
                                Some(q) if q.qfi is Some => q.qfi,
                                _ => s.qfi,
                            };
                            r matches DownlinkVerdict::Accepted(a) && a.upf_seid == k && a.police == police_qer(
                                s,
                                pdr.qer_id,
                            ) && a.far_id == pdr.far_id && a.urr_ids@ == pdr.urr_ids@ && a.dscp == qer_dscp(
                                s,
                                pdr.qer_id,
                            ) && a.qfi == qfi
                        }
                    },
                }
            },
        }
    }
}

/// The PDR ID a Downlink Data Report names: the first downlink PDR whose
/// FAR is `far_id`, else 0.
pub open spec fn report_pdr_id(pdrs: Seq<DataPlanePdr>, far_id: u32) -> u16
    decreases pdrs.len(),
{
    if pdrs.len() == 0 {
        0
    } else if pdrs[0].source_interface == SRC_INTF_CORE && pdrs[0].far_id == Some(far_id) {
        pdrs[0].pdr_id
    } else {
        report_pdr_id(pdrs.drop_first(), far_id)
    }
}

/// The outer ToS octet for a DSCP (ECN bits 0); 0 without one.
pub open spec fn outer_tos(dscp: Option<u8>) -> u8 {
    match dscp {
        Some(d) => ((d & 0x3F) << 2u8) as u8,
        None => 0,
    }
}

/// Finds the PDR ID a Downlink Data Report names (see `report_pdr_id`).
fn find_report_pdr_id(pdrs: &Vec<DataPlanePdr>, far_id: u32) -> (id: u16)
    ensures
        id == report_pdr_id(pdrs@, far_id),
{
    let n = pdrs.len();
    let mut i: usize = 0;
    assert(pdrs@.subrange(0, n as int) =~= pdrs@);
    while i < n
        invariant
            n == pdrs@.len(),
            i <= n,
            report_pdr_id(pdrs@.subrange(i as int, n as int), far_id) == report_pdr_id(pdrs@, far_id),
        decreases n - i,
    {
        let p = &pdrs[i];
        assert(pdrs@.subrange(i as int, n as int)[0] == pdrs@[i as int]);
        if p.source_interface == SRC_INTF_CORE && p.far_id == Some(far_id) {
            return p.pdr_id;
        }
        assert(pdrs@.subrange(i as int, n as int).drop_first() =~= pdrs@.subrange(i + 1, n as int));
        i = i + 1;
    }
    0
}

/// Whether a buffered packet can be framed as a G-PDU with the QFI: its
/// length, plus the extension header, fits the GTP-U length field.
pub open spec fn framable(p: Seq<u8>, qfi: Option<u8>) -> bool {
    qfi is Some ==> p.len() % 0x1_0000 + 8 <= 0xFFFF
}

/// The G-PDUs of the buffered packets that can be framed, in order.
pub open spec fn flushed(bufs: Seq<Vec<u8>>, teid: u32, qfi: Option<u8>) -> Seq<Seq<u8>>
    decreases bufs.len(),
{
    if bufs.len() == 0 {
        Seq::empty()
    } else {
        let rest = flushed(bufs.drop_last(), teid, qfi);
        if framable(bufs.last()@, qfi) {
            rest.push(dl_gpdu(bufs.last()@, teid, qfi))
        } else {
            rest
        }
    }
}

/// Whether a FAR forwards toward Access.
pub open spec fn forwards_to_access(f: DataPlaneFar) -> bool {
    f.destination_interface == SRC_INTF_ACCESS && f.apply_action & FAR_ACTION_FORW != 0
}

/// Whether a URR's periodic report is due: the PERIO trigger is set, no
/// threshold report is due, a measurement period has passed since the last
/// report and some traffic was counted.
pub open spec fn periodic_due(u: DataPlaneUrr, now: u64) -> bool {
    &&& u.trigger_periodic
    &&& !u.threshold_exceeded
    &&& elapsed_reached(now, u.last_report_time, u.measurement_period_secs)
    &&& u.acc_total_bytes > 0
}

/// Whether a usage report of a URR is due: a threshold was reached, or a
/// periodic report is due.
pub open spec fn report_due(u: DataPlaneUrr, now: u64) -> bool {
    u.threshold_exceeded || periodic_due(u, now)
}

/// The usage report of a URR of a session, with the URR's current UR-SEQN.
pub open spec fn urr_report(s: DataPlaneSession, id: u32, u: DataPlaneUrr) -> UrrReportEntry {
    UrrReportEntry {
        upf_seid: s.upf_seid,
        smf_seid: s.smf_seid,
        urr_id: id,
        ur_seqn: u.ur_seqn,
        total_bytes: u.acc_total_bytes,
        ul_bytes: u.acc_ul_bytes,
        dl_bytes: u.acc_dl_bytes,
        total_pkts: u.acc_total_pkts,
        ul_pkts: u.acc_ul_pkts,
        dl_pkts: u.acc_dl_pkts,
    }
}

/// A URR once reported at `now`: the UR-SEQN moves on and the counters and
/// flags are cleared.
pub open spec fn after_report(u: DataPlaneUrr, now: u64) -> DataPlaneUrr {
    DataPlaneUrr {
        ur_seqn: if u.ur_seqn == 0xFFFF_FFFF {
            0
        } else {
            (u.ur_seqn + 1) as u32
        },
        acc_total_bytes: 0,
        acc_ul_bytes: 0,
        acc_dl_bytes: 0,
        acc_total_pkts: 0,
        acc_ul_pkts: 0,
        acc_dl_pkts: 0,
        first_pkt_time: None,
        last_report_time: Some(now),
        threshold_exceeded: false,
        quota_exhausted: false,
        ..u
    }
}

/// What a report pass looks for: a reached threshold, or (the second pass)
/// a due periodic report.
pub open spec fn due_in_pass(u: DataPlaneUrr, now: u64, periodic: bool) -> bool {
    if periodic {
        periodic_due(u, now)
    } else {
        u.threshold_exceeded
    }
}

/// A URR after a report pass.
pub open spec fn after_pass(u: DataPlaneUrr, now: u64, periodic: bool) -> DataPlaneUrr {
    if due_in_pass(u, now, periodic) {
        after_report(u, now)
    } else {
        u
    }
}

/// A URR after usage reporting.
pub open spec fn after_reporting(u: DataPlaneUrr, now: u64) -> DataPlaneUrr {
    if report_due(u, now) {
        after_report(u, now)
    } else {
        u
    }
}

/// A session after usage reporting: its URRs reported and reset as due,
/// all else kept.
pub open spec fn session_reported(before: DataPlaneSession, after: DataPlaneSession, now: u64) -> bool {
    &&& same_but_urrs(before, after)
    &&& after.urrs@ == before.urrs@.map_values(|u: DataPlaneUrr| after_reporting(u, now))
}

/// The data plane: sessions, counters, this node's GTP-U address and the
/// N3 path table.
pub struct DataPlane {
    pub sessions: SessionManager,
    pub stats: DataPlaneStats,
    /// The address sent as GTP-U Peer Address in Error Indications
    pub local_gtpu_addr: [u8; 4],
    pub path_table: GtpuPathTable,
}

/// The session PFCP establishment installs: one uplink PDR (Access, FAR 1,
/// outer header removal 0) and one downlink PDR (Core, FAR 2), both of
/// precedence 100 and matching every packet; FAR 1 forwards to Core, FAR 2
/// forwards to Access with the gNB's tunnel as outer header; no QER, URR
/// or BAR; no traffic and an empty buffer.
pub open spec fn pfcp_default_session(
    s: DataPlaneSession,
    upf_seid: u64,
    smf_seid: u64,
    ue_ip: [u8; 4],
    ul_teid: u32,
    dl_teid: u32,
    gnb_addr: PeerAddr,
    pdu_session_id: Option<u8>,
    qfi: Option<u8>,
) -> bool {
    &&& s.upf_seid == upf_seid && s.smf_seid == smf_seid && s.ue_ipv4 == Some(ue_ip)
    &&& s.ul_teid == ul_teid && s.dl_teid == dl_teid && s.gnb_addr == gnb_addr
    &&& s.pdu_session_id == pdu_session_id && s.qfi == qfi
    &&& s.ul_packets == 0 && s.dl_packets == 0 && s.ul_bytes == 0 && s.dl_bytes == 0
    &&& default_pdrs(s.pdrs@)
    &&& s.fars@ == default_fars(dl_teid, gnb_addr)
    &&& s.qers@.len() == 0 && s.urrs@.len() == 0 && s.bars@.len() == 0
    &&& s.dl_buffer@.len() == 0 && !s.ddn_sent
}

/// The PDRs a PFCP establishment installs by default: uplink (Access, FAR
/// 1, outer header removal 0) then downlink (Core, FAR 2), both of
/// precedence 100 and matching every packet.
pub open spec fn default_pdrs(p: Seq<DataPlanePdr>) -> bool {
    &&& p.len() == 2
    &&& p[0].pdr_id == 1 && p[0].precedence == 100 && p[0].source_interface == SRC_INTF_ACCESS
    &&& p[0].far_id == Some(1u32) && p[0].qer_id is None && p[0].urr_ids@.len() == 0
    &&& p[0].outer_header_removal == Some(0u8) && p[0].sdf_rule is None && p[0].qfi is None
    &&& p[1].pdr_id == 2 && p[1].precedence == 100 && p[1].source_interface == SRC_INTF_CORE
    &&& p[1].far_id == Some(2u32) && p[1].qer_id is None && p[1].urr_ids@.len() == 0
    &&& p[1].outer_header_removal is None && p[1].sdf_rule is None && p[1].qfi is None
}

/// The FARs a PFCP establishment installs by default: FAR 1 forwards to
/// Core; FAR 2 forwards to Access through the gNB's tunnel.
pub open spec fn default_fars(dl_teid: u32, gnb_addr: PeerAddr) -> Map<u32, DataPlaneFar> {
    map![
        1u32 => DataPlaneFar {
            far_id: 1,
            apply_action: FAR_ACTION_FORW,
            destination_interface: SRC_INTF_CORE,
            ohc_teid: None,
            ohc_addr: None,
            bar_id: None,
        },
        2u32 => DataPlaneFar {
            far_id: 2,
            apply_action: FAR_ACTION_FORW,
            destination_interface: SRC_INTF_ACCESS,
            ohc_teid: Some(dl_teid),
            ohc_addr: Some(gnb_addr.ip),
            bar_id: None,
        },
    ]
}

/// A FAR once a session's downlink tunnel moves: a FAR toward Access takes
/// the new TEID and gNB address, each when given.
pub open spec fn far_retargeted(f: DataPlaneFar, dl_teid: Option<u32>, gnb_addr: Option<PeerAddr>) -> DataPlaneFar {
    if f.destination_interface == SRC_INTF_ACCESS {
        DataPlaneFar {
            ohc_teid: match dl_teid {
                Some(t) => Some(t),
                None => f.ohc_teid,
            },
            ohc_addr: match gnb_addr {
                Some(a) => Some(a.ip),
                None => f.ohc_addr,
            },
            ..f
        }
    } else {
        f
    }
}

/// A session once its downlink tunnel moves: the TEID and gNB address
/// given replace the old ones, the FARs toward Access follow, and all else
/// (rules, counters, buffer) is kept.
pub open spec fn retargeted(
    s: DataPlaneSession,
    t: DataPlaneSession,
    dl_teid: Option<u32>,
    gnb_addr: Option<PeerAddr>,
) -> bool {
    &&& t.upf_seid == s.upf_seid && t.smf_seid == s.smf_seid && t.ue_ipv4 == s.ue_ipv4 && t.ul_teid == s.ul_teid
    &&& t.dl_teid == (match dl_teid {
        Some(x) => x,
        None => s.dl_teid,
    })
    &&& t.gnb_addr == (match gnb_addr {
        Some(a) => a,
        None => s.gnb_addr,
    })
    &&& t.pdu_session_id == s.pdu_session_id && t.qfi == s.qfi
    &&& t.ul_packets == s.ul_packets && t.dl_packets == s.dl_packets
    &&& t.ul_bytes == s.ul_bytes && t.dl_bytes == s.dl_bytes
    &&& t.pdrs@ == s.pdrs@
    &&& t.fars@ == s.fars@.map_values(|f: DataPlaneFar| far_retargeted(f, dl_teid, gnb_addr))
    &&& t.qers@ == s.qers@ && t.urrs@ == s.urrs@ && t.bars@ == s.bars@
    &&& t.dl_buffer@ == s.dl_buffer@ && t.ddn_sent == s.ddn_sent
}

/// The session table once the session under `upf_seid` has its downlink
/// tunnel moved (see `retargeted`): taken out with its index entries and
/// put back under its keys; with no such session, nothing changes.
pub open spec fn tunnel_moved(
    before: SessionManager,
    after: SessionManager,
    upf_seid: u64,
    dl_teid: Option<u32>,
    gnb_addr: Option<PeerAddr>,
) -> bool {
    if !before.sessions().contains_key(upf_seid) {
        &&& after.sessions() == before.sessions()
        &&& after.ul_index() == before.ul_index()
        &&& after.ip_index() == before.ip_index()
    } else {
        let s = before.sessions()[upf_seid];
        let mid_ip = match s.ue_ipv4 {
            Some(a) => before.ip_index().remove(ip_key(a)),
            None => before.ip_index(),
        };
        let mid = before.sessions().remove(upf_seid);
        &&& after.sessions().contains_key(s.upf_seid)
        &&& retargeted(s, after.sessions()[s.upf_seid], dl_teid, gnb_addr)
        &&& after.sessions() == before.sessions().remove(upf_seid).insert(s.upf_seid, after.sessions()[s.upf_seid])
        &&& after.ul_index() == unlinked_ul_of(mid, before.ul_index().remove(s.ul_teid), s.upf_seid).insert(
            s.ul_teid,
            s.upf_seid,
        )
        &&& after.ip_index() == (match s.ue_ipv4 {
            Some(a) => unlinked_ip_of(mid, mid_ip, s.upf_seid).insert(ip_key(a), s.upf_seid),
            None => unlinked_ip_of(mid, mid_ip, s.upf_seid),
        })
    }
}

/// The keys of a map keyed by 32-bit IDs, each once.
pub fn keys_of<V>(m: &HashMap<u32, V>) -> (keys: Vec<u32>)
    ensures
        keys@.to_set() == m@.dom(),
        keys@.no_duplicates(),
{
    let mut keys: Vec<u32> = Vec::new();
    let ghost ks = spec_keys_iter(m).remaining();
    for k in it: m.keys()
        invariant
            it.seq() == ks,
            keys@ == ks.take(it.index()).unref(),
    {
        keys.push(*k);
        proof {
            assert(keys@ =~= ks.take(it.index() + 1).unref());
        }
    }
    proof {
        assert(ks.take(ks.len() as int) =~= ks);
        assert(keys@ =~= ks.unref());
        assert forall|i: int, j: int| 0 <= i < j < keys@.len() implies keys@[i] != keys@[j] by {
            assert(ks[i] != ks[j]);
        }
    }
    keys
}

/// Moves the FARs toward Access to a new downlink tunnel.
fn retarget_fars(fars: &mut HashMap<u32, DataPlaneFar>, dl_teid: Option<u32>, gnb_addr: Option<PeerAddr>)
    ensures
        final(fars)@ == old(fars)@.map_values(|f: DataPlaneFar| far_retargeted(f, dl_teid, gnb_addr)),
{
    let ghost m0 = fars@;
    let keys = keys_of(fars);
    let n = keys.len();
    let mut i: usize = 0;
    while i < n
        invariant
            n == keys@.len(),
            i <= n,
            keys@.to_set() == m0.dom(),
            keys@.no_duplicates(),
            fars@.dom() == m0.dom(),
            forall|j: int| 0 <= j < i ==> #[trigger] fars@[keys@[j]] == far_retargeted(m0[keys@[j]], dl_teid, gnb_addr),
            forall|j: int| i <= j < n ==> #[trigger] fars@[keys@[j]] == m0[keys@[j]],
        decreases n - i,
    {
        let k = keys[i];
        assert(keys@.to_set().contains(k));
        let f = *fars.get(&k).unwrap();
        if f.destination_interface == SRC_INTF_ACCESS {
            let mut g = f;
            if let Some(t) = dl_teid {
                g.ohc_teid = Some(t);
            }
            if let Some(a) = gnb_addr {
                g.ohc_addr = Some(a.ip);
            }
            fars.insert(k, g);
        }
        proof {
            assert forall|j: int| 0 <= j < n && j != i implies keys@[j] != k by {}
        }
        i = i + 1;
    }
    proof {
        assert forall|k: u32| #[trigger] fars@.contains_key(k) implies fars@[k] == far_retargeted(m0[k], dl_teid, gnb_addr) by {
            assert(keys@.to_set().contains(k));
            let j = choose|j: int| 0 <= j < n && keys@[j] == k;
            assert(fars@[keys@[j]] == far_retargeted(m0[keys@[j]], dl_teid, gnb_addr));
        }
        assert(fars@ =~= m0.map_values(|f: DataPlaneFar| far_retargeted(f, dl_teid, gnb_addr)));
    }
}

/// One report pass over the URRs of a session, in the order of `keys`:
/// each URR due in the pass is reported (its report appended to `out`)
/// and reset. Returns the IDs reported, in order.
fn report_pass(
    s: &mut DataPlaneSession,
    keys: &Vec<u32>,
    periodic: bool,
    now_secs: u64,
    out: &mut Vec<UrrReportEntry>,
) -> (ids: Ghost<Seq<u32>>)
    requires
        keys@.to_set() == old(s).urrs@.dom(),
        keys@.no_duplicates(),
    ensures
        final(s).urrs@ == old(s).urrs@.map_values(|u: DataPlaneUrr| after_pass(u, now_secs, periodic)),
        same_but_urrs(*old(s), *final(s)),
        ids@.no_duplicates(),
        forall|id: u32| #[trigger]
            ids@.contains(id) <==> (old(s).urrs@.contains_key(id) && due_in_pass(old(s).urrs@[id], now_secs, periodic)),
        final(out)@.len() == old(out)@.len() + ids@.len(),
        forall|t: int| 0 <= t < old(out)@.len() ==> #[trigger] final(out)@[t] == old(out)@[t],
        forall|t: int|
            0 <= t < ids@.len() ==> #[trigger] final(out)@[old(out)@.len() + t] == urr_report(
                *old(s),
                ids@[t],
                old(s).urrs@[ids@[t]],
            ),
{
    let ghost m0 = s.urrs@;
    let ghost s0 = *s;
    let ghost o0 = out@;
    let ghost mut ids: Seq<u32> = Seq::empty();
    let n = keys.len();
    let mut i: usize = 0;
    while i < n
        invariant
            n == keys@.len(),
            i <= n,
            keys@.to_set() == m0.dom(),
            keys@.no_duplicates(),
            s.urrs@.dom() == m0.dom(),
            same_but_urrs(s0, *s),
            forall|j: int| 0 <= j < i ==> #[trigger] s.urrs@[keys@[j]] == after_pass(m0[keys@[j]], now_secs, periodic),
            forall|j: int| i <= j < n ==> #[trigger] s.urrs@[keys@[j]] == m0[keys@[j]],
            ids.no_duplicates(),
            forall|id: u32| #[trigger]
                ids.contains(id) <==> exists|j: int|
                    0 <= j < i && keys@[j] == id && due_in_pass(m0[keys@[j]], now_secs, periodic),
            out@.len() == o0.len() + ids.len(),
            forall|t: int| 0 <= t < o0.len() ==> #[trigger] out@[t] == o0[t],
            forall|t: int| 0 <= t < ids.len() ==> #[trigger] out@[o0.len() + t] == urr_report(s0, ids[t], m0[ids[t]]),
        decreases n - i,
    {
        let k = keys[i];
        assert(keys@.to_set().contains(k));
        proof {
            assert forall|j: int| 0 <= j < n && j != i implies keys@[j] != k by {}
        }
        let u = *s.urrs.get(&k).unwrap();
        let due = if periodic {
            u.trigger_periodic && !u.threshold_exceeded && match (u.measurement_period_secs, u.last_report_time) {
                (Some(period), Some(last)) => now_secs.saturating_sub(last) >= period as u64,
                _ => false,
            } && u.acc_total_bytes > 0
        } else {
            u.threshold_exceeded
        };
        assert(due == due_in_pass(m0[k], now_secs, periodic));
        let ghost ids0 = ids;
        if due {
            let mut v = u;
            let seqn = v.next_ur_seqn();
            out.push(
                UrrReportEntry {
                    upf_seid: s.upf_seid,
                    smf_seid: s.smf_seid,
                    urr_id: k,
                    ur_seqn: seqn,
                    total_bytes: u.acc_total_bytes,
                    ul_bytes: u.acc_ul_bytes,
                    dl_bytes: u.acc_dl_bytes,
                    total_pkts: u.acc_total_pkts,
                    ul_pkts: u.acc_ul_pkts,
                    dl_pkts: u.acc_dl_pkts,
                },
            );
            v.reset_counters(now_secs);
            s.urrs.insert(k, v);
            proof {
                ids = ids.push(k);
                assert(!ids0.contains(k)) by {
                    if ids0.contains(k) {
                        let j = choose|j: int| 0 <= j < i && keys@[j] == k && due_in_pass(m0[keys@[j]], now_secs, periodic);
                    }
                }
                assert forall|a: int, b: int| 0 <= a < b < ids.len() implies ids[a] != ids[b] by {
                    if b == ids.len() - 1 {
                        assert(ids0.contains(ids0[a]));
                    }
                }
            }
        }
        proof {
            assert forall|id: u32| #[trigger]
                ids.contains(id) <==> exists|j: int|
                    0 <= j < i + 1 && keys@[j] == id && due_in_pass(m0[keys@[j]], now_secs, periodic) by {
                if ids.contains(id) {
                    let t = choose|t: int| 0 <= t < ids.len() && ids[t] == id;
                    if t < ids0.len() {
                        assert(ids0.contains(id));
                    } else {
                        assert(keys@[i as int] == id);
                    }
                }
                if exists|j: int| 0 <= j < i + 1 && keys@[j] == id && due_in_pass(m0[keys@[j]], now_secs, periodic) {
                    let j = choose|j: int| 0 <= j < i + 1 && keys@[j] == id && due_in_pass(m0[keys@[j]], now_secs, periodic);
                    if j < i {
                        assert(ids0.contains(id));
                        let t = choose|t: int| 0 <= t < ids0.len() && ids0[t] == id;
                        assert(ids[t] == id);
                    } else {
                        assert(ids[ids.len() - 1] == id);
                    }
                }
            }
        }
        i = i + 1;
    }
    proof {
        assert forall|k: u32| #[trigger] s.urrs@.contains_key(k) implies s.urrs@[k] == after_pass(m0[k], now_secs, periodic) by {
            assert(keys@.to_set().contains(k));
            let j = choose|j: int| 0 <= j < n && keys@[j] == k;
            assert(s.urrs@[keys@[j]] == after_pass(m0[keys@[j]], now_secs, periodic));
        }
        assert(s.urrs@ =~= m0.map_values(|u: DataPlaneUrr| after_pass(u, now_secs, periodic)));
        assert forall|id: u32| #[trigger] ids.contains(id) <==> (m0.contains_key(id) && due_in_pass(m0[id], now_secs, periodic)) by {
            if m0.contains_key(id) && due_in_pass(m0[id], now_secs, periodic) {
                assert(keys@.to_set().contains(id));
                let j = choose|j: int| 0 <= j < n && keys@[j] == id;
            }
            if ids.contains(id) {
                let j = choose|j: int| 0 <= j < n && keys@[j] == id && due_in_pass(m0[keys@[j]], now_secs, periodic);
                assert(keys@.to_set().contains(keys@[j]));
            }
        }
    }
    Ghost(ids)
}

/// The usage reports due in one session (see `report_due`): threshold
/// reports first, then periodic ones, each in the order of the URR map;
/// every URR reported is reset. Returns the reports and the IDs reported,
/// in order.
fn collect_session_reports(s: &mut DataPlaneSession, now_secs: u64, out: &mut Vec<UrrReportEntry>) -> (ids: Ghost<
    Seq<u32>,
>)
    ensures
        final(s).urrs@ == old(s).urrs@.map_values(|u: DataPlaneUrr| after_reporting(u, now_secs)),
        same_but_urrs(*old(s), *final(s)),
        ids@.no_duplicates(),
        forall|id: u32| #[trigger]
            ids@.contains(id) <==> (old(s).urrs@.contains_key(id) && report_due(old(s).urrs@[id], now_secs)),
        final(out)@.len() == old(out)@.len() + ids@.len(),
        forall|t: int| 0 <= t < old(out)@.len() ==> #[trigger] final(out)@[t] == old(out)@[t],
        forall|t: int|
            0 <= t < ids@.len() ==> #[trigger] final(out)@[old(out)@.len() + t] == urr_report(
                *old(s),
                ids@[t],
                old(s).urrs@[ids@[t]],
            ),
{
    let ghost m0 = s.urrs@;
    let ghost s0 = *s;
    let ghost o0 = out@;
    let keys = keys_of(&s.urrs);
    let ids1 = report_pass(s, &keys, false, now_secs, out);
    let ghost m1 = s.urrs@;
    let ghost s1 = *s;
    let ghost o1 = out@;
    assert(s.urrs@.dom() =~= m0.dom());
    let ids2 = report_pass(s, &keys, true, now_secs, out);
    proof {
        assert forall|id: u32| #[trigger] m1.contains_key(id) implies (due_in_pass(m1[id], now_secs, true) <==> (
        !m0[id].threshold_exceeded && periodic_due(m0[id], now_secs))) && (!m0[id].threshold_exceeded ==> m1[id]
            == m0[id]) by {}
        let ids = ids1@ + ids2@;
        assert forall|a: int, b: int| 0 <= a < b < ids.len() implies ids[a] != ids[b] by {
            if a < ids1@.len() && b >= ids1@.len() {
                assert(ids1@.contains(ids[a]));
                assert(ids2@.contains(ids2@[b - ids1@.len()]));
            }
        }
        assert forall|id: u32| #[trigger] ids.contains(id) <==> (m0.contains_key(id) && report_due(m0[id], now_secs)) by {
            if ids.contains(id) {
                let t = choose|t: int| 0 <= t < ids.len() && ids[t] == id;
                if t < ids1@.len() {
                    assert(ids1@.contains(id));
                } else {
                    assert(ids2@.contains(ids2@[t - ids1@.len()]));
                }
            }
            if m0.contains_key(id) && report_due(m0[id], now_secs) {
                if m0[id].threshold_exceeded {
                    assert(ids1@.contains(id));
                    let t = choose|t: int| 0 <= t < ids1@.len() && ids1@[t] == id;
                    assert(ids[t] == id);
                } else {
                    assert(ids2@.contains(id));
                    let t = choose|t: int| 0 <= t < ids2@.len() && ids2@[t] == id;
                    assert(ids[ids1@.len() + t] == id);
                }
            }
        }
        assert forall|t: int| 0 <= t < ids.len() implies #[trigger] out@[o0.len() + t] == urr_report(s0, ids[t], m0[ids[t]]) by {
            if t < ids1@.len() {
                assert(out@[o0.len() + t] == o1[o0.len() + t]);
            } else {
                let t2 = t - ids1@.len();
                assert(out@[o1.len() + t2] == urr_report(s1, ids2@[t2], m1[ids2@[t2]]));
                assert(ids2@.contains(ids2@[t2]));
                assert(o0.len() + t == o1.len() + t2);
            }
        }
        assert(s.urrs@ =~= m0.map_values(|u: DataPlaneUrr| after_reporting(u, now_secs)));
    }
    Ghost(ids1@ + ids2@)
}

/// A session just installed from PFCP takes the uplink G-PDUs sent on its
/// uplink TEID from its UE address: they are accepted for forwarding by
/// its uplink FAR, with no QER to police and no URR to count.
pub proof fn lemma_installed_session_takes_uplink(
    before: SessionManager,
    after: SessionManager,
    upf_seid: u64,
    smf_seid: u64,
    ue_ip: [u8; 4],
    ul_teid: u32,
    dl_teid: u32,
    gnb_addr: PeerAddr,
    pdu_session_id: Option<u8>,
    qfi: Option<u8>,
    local: [u8; 4],
    pkt: Seq<u8>,
    hl: int,
    r: UplinkVerdict,
)
    requires
        after.sessions().contains_key(upf_seid),
        pfcp_default_session(
            after.sessions()[upf_seid],
            upf_seid,
            smf_seid,
            ue_ip,
            ul_teid,
            dl_teid,
            gnb_addr,
            pdu_session_id,
            qfi,
        ),
        after.sessions() == before.sessions().insert(upf_seid, after.sessions()[upf_seid]),
        after.ul_index() == unlinked_ul(before, upf_seid).insert(ul_teid, upf_seid),
        gtpu_header_len(pkt) == Some(hl),
        8 <= hl,
        u32_at(pkt, 4) == ul_teid,
        pkt.len() >= hl + 20,
        pkt[hl] >> 4u8 == IP_VERSION_4,
        pkt.subrange(hl + 12, hl + 16) == ue_ip@,
        gpdu_verdict(after, local, pkt, hl, r),
    ensures
        r matches UplinkVerdict::Accepted(a) && a.upf_seid == upf_seid && a.far_id == Some(1u32) && a.police is None
            && a.dscp is None && a.urr_ids@.len() == 0 && a.payload_offset == hl,
{
    let ip = pkt.subrange(hl, pkt.len() as int);
    assert(ul_seid(after, ul_teid, ip) == Some(upf_seid));
    let s = after.sessions()[upf_seid];
    assert(ip.subrange(12, 16) =~= pkt.subrange(hl + 12, hl + 16));
    assert(!spoofed(s, ip));
    assert(first_pdr(s.pdrs@, SRC_INTF_ACCESS, tuple_of(ip), gtpu_qfi(pkt)) == Some(0int));
}

/// A session just installed from PFCP takes the downlink packets sent to
/// its UE address: they are accepted with its QFI for its downlink FAR,
/// which forwards them to the gNB tunnel it was installed with.
pub proof fn lemma_installed_session_takes_downlink(
    before: SessionManager,
    after: SessionManager,
    upf_seid: u64,
    smf_seid: u64,
    ue_ip: [u8; 4],
    ul_teid: u32,
    dl_teid: u32,
    gnb_addr: PeerAddr,
    pdu_session_id: Option<u8>,
    qfi: Option<u8>,
    pkt: Seq<u8>,
    r: DownlinkVerdict,
)
    requires
        after.sessions().contains_key(upf_seid),
        pfcp_default_session(
            after.sessions()[upf_seid],
            upf_seid,
            smf_seid,
            ue_ip,
            ul_teid,
            dl_teid,
            gnb_addr,
            pdu_session_id,
            qfi,
        ),
        after.sessions() == before.sessions().insert(upf_seid, after.sessions()[upf_seid]),
        after.ip_index() == unlinked_ip(before, upf_seid).insert(ip_key(ue_ip), upf_seid),
        20 <= pkt.len() <= TUN_MTU,
        (pkt[0] >> 4u8) & 0x0F == IP_VERSION_4,
        pkt.subrange(16, 20) == ue_ip@,
        dl_verdict(after, pkt, r),
    ensures
        r matches DownlinkVerdict::Accepted(a) && a.upf_seid == upf_seid && a.far_id == Some(2u32) && a.police is None
            && a.dscp is None && a.urr_ids@.len() == 0 && a.qfi == qfi,
        far_verdict(after.sessions()[upf_seid], Some(2u32)) == Some(
            FarDecision::Forward { ohc_teid: Some(dl_teid), ohc_addr: Some(gnb_addr.ip) },
        ),
{
    assert(pkt[16] == ue_ip[0] && pkt[17] == ue_ip[1] && pkt[18] == ue_ip[2] && pkt[19] == ue_ip[3]) by {
        assert(pkt.subrange(16, 20)[0] == pkt[16]);
        assert(pkt.subrange(16, 20)[1] == pkt[17]);
        assert(pkt.subrange(16, 20)[2] == pkt[18]);
        assert(pkt.subrange(16, 20)[3] == pkt[19]);
    }
    assert(dl_seid(after, pkt) == Some(upf_seid));
    let s = after.sessions()[upf_seid];
    let tuple = tuple_of(pkt);
    assert(first_pdr(s.pdrs@, SRC_INTF_CORE, tuple, None) == Some(1int)) by {
        assert(s.pdrs@.drop_first()[0] == s.pdrs@[1]);
        assert(first_pdr(s.pdrs@.drop_first(), SRC_INTF_CORE, tuple, None) == Some(0int));
    }
    assert(FAR_ACTION_FORW & 0x0001u16 == 0 && FAR_ACTION_FORW & 0x0002u16 != 0) by (bit_vector);
}

impl DataPlane {
    /// A data plane with no session, zeroed counters, no local address
    /// yet and a fresh path table.
    pub fn new() -> (d: Self)
        ensures
            d.sessions.sessions() == Map::<u64, DataPlaneSession>::empty(),
            d.sessions.ul_index() == Map::<u32, u64>::empty(),
            d.sessions.ip_index() == Map::<u32, u64>::empty(),
            d.stats.dropped_packets == 0 && d.stats.ul_packets == 0 && d.stats.dl_packets == 0,
            d.local_gtpu_addr == [0u8, 0, 0, 0],
            d.path_table.wf(),
            d.path_table.peers().len() == 0,
    {
        DataPlane {
            sessions: SessionManager::new(),
            stats: DataPlaneStats::default(),
            local_gtpu_addr: [0, 0, 0, 0],
            path_table: GtpuPathTable::new(),
        }
    }

    /// The report an Error Indication payload raises (see `ei_report_ok`).
    pub fn error_indication_report(&self, payload: &[u8]) -> (e: Option<UpfReportEvent>)
        ensures
            ei_report_ok(self.sessions, payload@, e),
    {
        match parse_gtpu_error_indication(payload) {
            None => None,
            Some((teid, peer)) => match self.sessions.find_by_dl_teid(teid) {
                None => None,
                Some(sess) => Some(
                    UpfReportEvent::ErrorIndicationReport {
                        upf_seid: sess.upf_seid,
                        smf_seid: sess.smf_seid,
                        remote_teid: teid,
                        peer_ipv4: peer,
                    },
                ),
            },
        }
    }

    /// Decides a G-PDU whose header is `hl` octets long (see
    /// `gpdu_verdict`).
    pub fn classify_gpdu(&self, pkt: &[u8], hl: usize) -> (r: UplinkVerdict)
        requires
            gtpu_header_len(pkt@) == Some(hl as int),
            pkt@.len() >= 8,
        ensures
            gpdu_verdict(self.sessions, self.local_gtpu_addr, pkt@, hl as int, r),
    {
        let teid = crate::wire::read_u32(pkt, 4);
        if pkt.len() <= hl {
            return UplinkVerdict::Dropped(DropCause::NoPayload);
        }
        let ip = &pkt[hl..pkt.len()];
        let ghost ipv = pkt@.subrange(hl as int, pkt@.len() as int);
        assert(ip@ == ipv);
        let by_teid = self.sessions.seid_by_ul_teid(teid);
        let key = match by_teid {
            Some(k) => Some(k),
            None => if ip.len() >= 20 && (ip[0] >> 4u8) & 0x0F == IP_VERSION_4 {
                let a = [ip[12], ip[13], ip[14], ip[15]];
                assert(ip_key(a) == u32_of(ipv[12], ipv[13], ipv[14], ipv[15]));
                self.sessions.seid_by_ue_ip(a)
            } else {
                None
            },
        };
        assert(key == ul_seid(self.sessions, teid, ipv));
        let k = match key {
            None => {
                if teid != 0 {
                    return UplinkVerdict::UnknownTunnel(Some(build_gtpu_error_indication(teid, self.local_gtpu_addr)));
                } else {
                    return UplinkVerdict::UnknownTunnel(None);
                }
            },
            Some(k) => k,
        };
        let session = self.sessions.find_by_seid(k).unwrap();
        if let Some(ue) = session.ue_ipv4 {
            if ip.len() >= 20 && (ip[0] >> 4u8) == IP_VERSION_4 {
                if ip[12] != ue[0] || ip[13] != ue[1] || ip[14] != ue[2] || ip[15] != ue[3] {
                    assert(ipv.subrange(12, 16)[0] == ipv[12]);
                    assert(ipv.subrange(12, 16)[1] == ipv[13]);
                    assert(ipv.subrange(12, 16)[2] == ipv[14]);
                    assert(ipv.subrange(12, 16)[3] == ipv[15]);
                    return UplinkVerdict::Dropped(DropCause::Spoofed);
                }
                assert(ipv.subrange(12, 16) =~= ue@);
            }
        }
        assert(!spoofed(*session, ipv));
        let tuple = PacketTuple::from_ipv4_packet(ip);
        let qfi = extract_qfi_from_gtp_header(pkt);
        let m = match &tuple {
            Some(t) => session.match_pdr_with_packet(SRC_INTF_ACCESS, Some(t), qfi),
            None => session.match_pdr_with_packet(SRC_INTF_ACCESS, None, qfi),
        };
        match m {
            None => UplinkVerdict::Dropped(DropCause::NoPdr),
            Some((far_id, qer_id, urr_ids, _ohr)) => {
                let (police, dscp) = match qer_id {
                    Some(q) => match session.check_qer_gate(q, true) {
                        QerGate::Closed => {
                            return UplinkVerdict::Dropped(DropCause::GateClosed);
                        },
                        QerGate::NoQer => (None, None),
                        QerGate::Open => {
                            let qer = *session.qers.get(&q).unwrap();
                            (Some(qer), if qer.dscp != 0 {
                                Some(qer.dscp)
                            } else {
                                None
                            })
                        },
                    },
                    None => (None, None),
                };
                UplinkVerdict::Accepted(
                    UplinkPacket { upf_seid: k, police, far_id, urr_ids, dscp, payload_offset: hl },
                )
            },
        }
    }

    /// Takes a GTP-U message received on N3 from `from` at `now_secs`:
    /// an unreadable header is dropped; an Echo Request is answered; an
    /// Error Indication raises a report for the session it names; an Echo
    /// Response updates the path table; a G-PDU is decided by
    /// `gpdu_verdict`; anything else is ignored. Drops are counted.
    pub fn handle_uplink_packet(&mut self, pkt: &[u8], from: PeerAddr, now_secs: u64) -> (r: UplinkVerdict)
        requires
            old(self).path_table.wf(),
        ensures
            final(self).path_table.wf(),
            final(self).sessions == old(self).sessions,
            final(self).local_gtpu_addr == old(self).local_gtpu_addr,
            match gtpu_header_len(pkt@) {
                None => r == UplinkVerdict::Dropped(DropCause::Malformed) && final(self).stats == counted_drop(
                    old(self).stats,
                ) && final(self).path_table == old(self).path_table,
                Some(hl) => {
                    let t = pkt@[1];
                    let payload = pkt@.subrange(hl, pkt@.len() as int);
                    if t == gtpu_msg_type::ECHO_REQUEST {
                        &&& r matches UplinkVerdict::EchoReply(v) && v@ == echo_message(
                            gtpu_msg_type::ECHO_RESPONSE,
                            if pkt@[0] & 0x02 != 0 {
                                u16_at(pkt@, 8)
                            } else {
                                0
                            },
                            0,
                        )
                        &&& final(self).stats == old(self).stats
                        &&& final(self).path_table == old(self).path_table
                    } else if t == gtpu_msg_type::ERROR_INDICATION {
                        &&& r matches UplinkVerdict::PeerError(e) && (if pkt@.len() > hl {
                            ei_report_ok(old(self).sessions, payload, e)
                        } else {
                            e is None
                        })
                        &&& final(self).stats == old(self).stats
                        &&& final(self).path_table == old(self).path_table
                    } else if t == gtpu_msg_type::ECHO_RESPONSE {
                        let c = if pkt@.len() > hl {
                            match recovery_scan(payload, 0) {
                                Some(x) => x,
                                None => 0,
                            }
                        } else {
                            0
                        };
                        let k = peer_key(from);
                        let before = if old(self).path_table.peers().contains_key(k) {
                            old(self).path_table.peers()[k]
                        } else {
                            (from, GtpuPeerState::default_state())
                        };
                        &&& r == UplinkVerdict::EchoAnswered {
                            restarted: before.1.last_recovery matches Some(p) && p != c,
                        }
                        &&& final(self).path_table.peers() == old(self).path_table.peers().insert(
                            k,
                            (before.0, answered(before.1, c, now_secs)),
                        )
                        &&& final(self).path_table.next_seq() == old(self).path_table.next_seq()
                        &&& final(self).stats == old(self).stats
                    } else if t == gtpu_msg_type::GPDU {
                        &&& gpdu_verdict(old(self).sessions, old(self).local_gtpu_addr, pkt@, hl, r)
                        &&& final(self).path_table == old(self).path_table
                        &&& final(self).stats == (match r {
                            UplinkVerdict::Dropped(DropCause::Spoofed) => counted_spoof(old(self).stats),
                            UplinkVerdict::Dropped(_) => counted_drop(old(self).stats),
                            UplinkVerdict::UnknownTunnel(_) => counted_drop(old(self).stats),
                            _ => old(self).stats,
                        })
                    } else {
                        &&& r == UplinkVerdict::Ignored
                        &&& final(self).stats == old(self).stats
                        &&& final(self).path_table == old(self).path_table
                    }
                },
            },
    {
        let header = match parse_gtpu_header(pkt) {
            Some(h) => h,
            None => {
                self.stats.dropped_packets = self.stats.dropped_packets.wrapping_add(1);
                return UplinkVerdict::Dropped(DropCause::Malformed);
            },
        };
        let hl = header.header_len;
        if header.msg_type == gtpu_msg_type::ECHO_REQUEST {
            UplinkVerdict::EchoReply(build_gtpu_echo_response(header.seq_num))
        } else if header.msg_type == gtpu_msg_type::ERROR_INDICATION {
            if pkt.len() > hl {
                let payload = &pkt[hl..pkt.len()];
                UplinkVerdict::PeerError(self.error_indication_report(payload))
            } else {
                UplinkVerdict::PeerError(None)
            }
        } else if header.msg_type == gtpu_msg_type::ECHO_RESPONSE {
            let recovery = if pkt.len() > hl {
                parse_gtpu_recovery_ie(&pkt[hl..pkt.len()])
            } else {
                None
            };
            let counter = match recovery {
                Some(c) => c,
                None => 0,
            };
            let restarted = self.path_table.on_echo_response(from, counter, now_secs);
            UplinkVerdict::EchoAnswered { restarted }
        } else if header.msg_type == gtpu_msg_type::GPDU {
            let r = self.classify_gpdu(pkt, hl);
            match &r {
                UplinkVerdict::Dropped(DropCause::Spoofed) => {
                    self.stats.spoofed_packets = self.stats.spoofed_packets.wrapping_add(1);
                    self.stats.dropped_packets = self.stats.dropped_packets.wrapping_add(1);
                },
                UplinkVerdict::Dropped(_) => {
                    self.stats.dropped_packets = self.stats.dropped_packets.wrapping_add(1);
                },
                UplinkVerdict::UnknownTunnel(_) => {
                    self.stats.dropped_packets = self.stats.dropped_packets.wrapping_add(1);
                },
                _ => {},
            }
            r
        } else {
            UplinkVerdict::Ignored
        }
    }

    /// Finishes an accepted G-PDU, `rate_ok` telling whether it passed the
    /// policing of its QER: dropped when policed out, when its session is
    /// gone, when its FAR does not forward, when a URR's counter is full or
    /// a quota is used up (the URRs count it first), or when larger than
    /// the TUN MTU; else its inner packet, with the QER's DSCP set, is to
    /// be written to the TUN device. Drops are counted.
    pub fn commit_uplink(&mut self, acc: &UplinkPacket, pkt: &[u8], rate_ok: bool, now_secs: u64) -> (r:
        UplinkDelivery)
        requires
            acc.payload_offset <= pkt@.len(),
        ensures
            final(self).path_table == old(self).path_table,
            final(self).local_gtpu_addr == old(self).local_gtpu_addr,
            final(self).sessions.ul_index() == old(self).sessions.ul_index(),
            final(self).sessions.ip_index() == old(self).sessions.ip_index(),
            ({
                let k = acc.upf_seid;
                let payload = pkt@.subrange(acc.payload_offset as int, pkt@.len() as int);
                let bytes = payload.len() as u64;
                let ids = acc.urr_ids@;
                if acc.police is Some && !rate_ok {
                    &&& r matches UplinkDelivery::Dropped(c) && c == DropCause::Policed
                    &&& final(self).sessions.sessions() == old(self).sessions.sessions()
                    &&& final(self).stats == counted_drop(old(self).stats)
                } else if !old(self).sessions.sessions().contains_key(k) {
                    &&& r matches UplinkDelivery::Dropped(c) && c == DropCause::NoSession
                    &&& final(self).sessions.sessions() == old(self).sessions.sessions()
                    &&& final(self).stats == counted_drop(old(self).stats)
                } else {
                    let s = old(self).sessions.sessions()[k];
                    if far_verdict(s, acc.far_id) == Some(FarDecision::Drop) {
                        &&& r matches UplinkDelivery::Dropped(c) && c == DropCause::FarDrop
                        &&& final(self).sessions.sessions() == old(self).sessions.sessions()
                        &&& final(self).stats == counted_drop(old(self).stats)
                    } else if far_verdict(s, acc.far_id) matches Some(FarDecision::Buffer { .. }) {
                        &&& r matches UplinkDelivery::Dropped(c) && c == DropCause::NotForwarded
                        &&& final(self).sessions.sessions() == old(self).sessions.sessions()
                        &&& final(self).stats == counted_drop(old(self).stats)
                    } else if ids.len() > 0 && !urrs_fit(s.urrs@, bytes, ids.len() as int) {
                        &&& r matches UplinkDelivery::Dropped(c) && c == DropCause::CountersFull
                        &&& final(self).sessions.sessions() == old(self).sessions.sessions()
                        &&& final(self).stats == counted_drop(old(self).stats)
                    } else {
                        &&& final(self).sessions.sessions().contains_key(k)
                        &&& final(self).sessions.sessions() == old(self).sessions.sessions().insert(
                            k,
                            final(self).sessions.sessions()[k],
                        )
                        &&& urrs_counted(s, final(self).sessions.sessions()[k], ids, bytes, true, now_secs)
                        &&& if ids.len() > 0 && urrs_refuse(s.urrs@, ids, bytes, true, now_secs) {
                            &&& r matches UplinkDelivery::Dropped(c) && c == DropCause::QuotaExhausted
                            &&& final(self).stats == counted_drop(old(self).stats)
                        } else if bytes > TUN_MTU {
                            &&& r matches UplinkDelivery::Dropped(c) && c == DropCause::Oversize
                            &&& final(self).stats == counted_oversize(old(self).stats)
                        } else {
                            &&& r matches UplinkDelivery::Write(v) && v@ == with_dscp(payload, acc.dscp)
                            &&& final(self).stats == old(self).stats
                        }
                    }
                }
            }),
    {
        if acc.police.is_some() && !rate_ok {
            self.stats.dropped_packets = self.stats.dropped_packets.wrapping_add(1);
            return UplinkDelivery::Dropped(DropCause::Policed);
        }
        let k = acc.upf_seid;
        let ghost m0 = self.sessions.sessions();
        let mut session = match self.sessions.take_session(k) {
            Some(s) => s,
            None => {
                self.stats.dropped_packets = self.stats.dropped_packets.wrapping_add(1);
                return UplinkDelivery::Dropped(DropCause::NoSession);
            },
        };
        let ghost s0 = session;
        assert(s0 == m0[k]);
        let payload = &pkt[acc.payload_offset..pkt.len()];
        assert(payload@ == pkt@.subrange(acc.payload_offset as int, pkt@.len() as int));
        let bytes = payload.len() as u64;
        if let Some(fid) = acc.far_id {
            match session.apply_far(fid) {
                FarDecision::Forward { .. } => {},
                FarDecision::Drop => {
                    self.sessions.put_session(k, session);
                    assert(self.sessions.sessions() =~= m0);
                    self.stats.dropped_packets = self.stats.dropped_packets.wrapping_add(1);
                    return UplinkDelivery::Dropped(DropCause::FarDrop);
                },
                FarDecision::Buffer { .. } => {
                    self.sessions.put_session(k, session);
                    assert(self.sessions.sessions() =~= m0);
                    self.stats.dropped_packets = self.stats.dropped_packets.wrapping_add(1);
                    return UplinkDelivery::Dropped(DropCause::NotForwarded);
                },
            }
        }
        let n = acc.urr_ids.len();
        if n > 0 {
            if !urrs_have_room(&session.urrs, bytes, n) {
                self.sessions.put_session(k, session);
                assert(self.sessions.sessions() =~= m0);
                self.stats.dropped_packets = self.stats.dropped_packets.wrapping_add(1);
                return UplinkDelivery::Dropped(DropCause::CountersFull);
            }
            let refused = session.record_urrs(acc.urr_ids.as_slice(), bytes, true, now_secs);
            if refused {
                assert(urrs_counted(s0, session, acc.urr_ids@, bytes, true, now_secs));
                self.sessions.put_session(k, session);
                self.stats.dropped_packets = self.stats.dropped_packets.wrapping_add(1);
                return UplinkDelivery::Dropped(DropCause::QuotaExhausted);
            }
        }
        assert(urrs_counted(s0, session, acc.urr_ids@, bytes, true, now_secs));
        self.sessions.put_session(k, session);
        if bytes > TUN_MTU as u64 {
            self.stats.oversize_packets = self.stats.oversize_packets.wrapping_add(1);
            self.stats.dropped_packets = self.stats.dropped_packets.wrapping_add(1);
            return UplinkDelivery::Dropped(DropCause::Oversize);
        }
        let mut out: Vec<u8> = Vec::new();
        out.extend_from_slice(payload);
        assert(out@ == payload@);
        match acc.dscp {
            Some(d) => {
                let mut marked = out;
                apply_dscp_to_ip_packet(marked.as_mut_slice(), d);
                assert(marked@ == with_dscp(payload@, acc.dscp));
                UplinkDelivery::Write(marked)
            },
            None => UplinkDelivery::Write(out),
        }
    }

    /// Counts an uplink packet of `bytes` octets written to the TUN device,
    /// in its session (when still there) and in the data plane counters.
    pub fn note_uplink_written(&mut self, upf_seid: u64, bytes: u64)
        ensures
            final(self).path_table == old(self).path_table,
            final(self).sessions.ul_index() == old(self).sessions.ul_index(),
            final(self).sessions.ip_index() == old(self).sessions.ip_index(),
            final(self).stats == (DataPlaneStats {
                ul_packets: bump(old(self).stats.ul_packets),
                ul_bytes: wrap_add(old(self).stats.ul_bytes, bytes),
                ..old(self).stats
            }),
            !old(self).sessions.sessions().contains_key(upf_seid) ==> final(self).sessions.sessions()
                == old(self).sessions.sessions(),
            old(self).sessions.sessions().contains_key(upf_seid) ==> {
                let s = old(self).sessions.sessions()[upf_seid];
                let t = final(self).sessions.sessions()[upf_seid];
                &&& final(self).sessions.sessions() == old(self).sessions.sessions().insert(upf_seid, t)
                &&& t.ul_packets == bump(s.ul_packets) && t.ul_bytes == wrap_add(s.ul_bytes, bytes)
                &&& t.dl_packets == s.dl_packets && t.dl_bytes == s.dl_bytes
                &&& t.upf_seid == s.upf_seid && t.smf_seid == s.smf_seid && t.ue_ipv4 == s.ue_ipv4
                &&& t.ul_teid == s.ul_teid && t.dl_teid == s.dl_teid && t.gnb_addr == s.gnb_addr
                &&& t.pdrs == s.pdrs && t.fars@ == s.fars@ && t.qers@ == s.qers@ && t.urrs@ == s.urrs@
                &&& t.bars@ == s.bars@ && t.dl_buffer@ == s.dl_buffer@ && t.ddn_sent == s.ddn_sent
            },
    {
        if let Some(mut s) = self.sessions.take_session(upf_seid) {
            s.ul_packets = s.ul_packets.wrapping_add(1);
            s.ul_bytes = s.ul_bytes.wrapping_add(bytes);
            self.sessions.put_session(upf_seid, s);
        }
        self.stats.ul_packets = self.stats.ul_packets.wrapping_add(1);
        self.stats.ul_bytes = self.stats.ul_bytes.wrapping_add(bytes);
    }

    /// Counts a packet dropped outside these functions (a failed send or
    /// write).
    pub fn note_dropped(&mut self)
        ensures
            final(self).stats == counted_drop(old(self).stats),
            final(self).sessions == old(self).sessions,
            final(self).path_table == old(self).path_table,
            final(self).local_gtpu_addr == old(self).local_gtpu_addr,
    {
        self.stats.dropped_packets = self.stats.dropped_packets.wrapping_add(1);
    }

    /// Takes an IP packet read from the TUN device: an empty read is
    /// ignored; otherwise it is decided by `dl_verdict`. Drops are counted
    /// (oversize ones as such too).
    pub fn handle_downlink_packet(&mut self, pkt: &[u8]) -> (r: DownlinkVerdict)
        ensures
            final(self).sessions == old(self).sessions,
            final(self).path_table == old(self).path_table,
            final(self).local_gtpu_addr == old(self).local_gtpu_addr,
            pkt@.len() == 0 ==> r == DownlinkVerdict::Ignored && final(self).stats == old(self).stats,
            pkt@.len() > 0 ==> dl_verdict(old(self).sessions, pkt@, r),
            final(self).stats == (match r {
                DownlinkVerdict::Dropped(DropCause::Oversize) => counted_oversize(old(self).stats),
                DownlinkVerdict::Dropped(_) => counted_drop(old(self).stats),
                _ => old(self).stats,
            }),
    {
        if pkt.len() == 0 {
            return DownlinkVerdict::Ignored;
        }
        let r = self.classify_downlink(pkt);
        match &r {
            DownlinkVerdict::Dropped(DropCause::Oversize) => {
                self.stats.oversize_packets = self.stats.oversize_packets.wrapping_add(1);
                self.stats.dropped_packets = self.stats.dropped_packets.wrapping_add(1);
            },
            DownlinkVerdict::Dropped(_) => {
                self.stats.dropped_packets = self.stats.dropped_packets.wrapping_add(1);
            },
            _ => {},
        }
        r
    }

    /// Decides a non-empty downlink packet (see `dl_verdict`).
    pub fn classify_downlink(&self, pkt: &[u8]) -> (r: DownlinkVerdict)
        requires
            pkt@.len() > 0,
        ensures
            dl_verdict(self.sessions, pkt@, r),
    {
        if pkt.len() > TUN_MTU as usize {
            return DownlinkVerdict::Dropped(DropCause::Oversize);
        }
        let version = (pkt[0] >> 4u8) & 0x0F;
        let key = if version == IP_VERSION_4 && pkt.len() >= 20 {
            let a = [pkt[16], pkt[17], pkt[18], pkt[19]];
            assert(ip_key(a) == u32_of(pkt@[16], pkt@[17], pkt@[18], pkt@[19]));
            self.sessions.seid_by_ue_ip(a)
        } else {
            None
        };
        let k = match key {
            None => {
                return DownlinkVerdict::Dropped(DropCause::NoSession);
            },
            Some(k) => k,
        };
        let session = self.sessions.find_by_seid(k).unwrap();
        let tuple = if version == IP_VERSION_4 {
            PacketTuple::from_ipv4_packet(pkt)
        } else {
            None
        };
        let m = match &tuple {
            Some(t) => session.match_pdr_with_packet(SRC_INTF_CORE, Some(t), None),
            None => session.match_pdr_with_packet(SRC_INTF_CORE, None, None),
        };
        match m {
            None => DownlinkVerdict::Dropped(DropCause::NoPdr),
            Some((far_id, qer_id, urr_ids, _ohr)) => {
                let (police, dscp, qer_qfi) = match qer_id {
                    Some(q) => match session.check_qer_gate(q, false) {
                        QerGate::Closed => {
                            return DownlinkVerdict::Dropped(DropCause::GateClosed);
                        },
                        QerGate::NoQer => (None, None, None),
                        QerGate::Open => {
                            let qer = *session.qers.get(&q).unwrap();
                            (Some(qer), if qer.dscp != 0 {
                                Some(qer.dscp)
                            } else {
                                None
                            }, qer.qfi)
                        },
                    },
                    None => (None, None, None),
                };
                let qfi = match qer_qfi {
                    Some(x) => Some(x),
                    None => session.qfi,
                };
                DownlinkVerdict::Accepted(DownlinkPacket { upf_seid: k, police, far_id, urr_ids, dscp, qfi })
            },
        }
    }

    /// Finishes an accepted downlink packet, `rate_ok` telling whether it
    /// passed the policing of its QER: dropped when policed out or when
    /// its session is gone; then by its FAR: dropped, buffered (a full
    /// buffer drops it; the first packet of a buffering episode under NOCP
    /// raises a Downlink Data Report), or forwarded to the FAR's tunnel
    /// (else the session's), in which case the URRs count it and may drop
    /// it (a full counter or a used-up quota), and the G-PDU to send
    /// carries the QFI, with the QER's DSCP as outer ToS. Drops are
    /// counted.
    pub fn commit_downlink(&mut self, acc: &DownlinkPacket, pkt: &[u8], rate_ok: bool, now_secs: u64) -> (r:
        DownlinkDelivery)
        requires
            pkt@.len() <= TUN_MTU,
        ensures
            final(self).path_table == old(self).path_table,
            final(self).local_gtpu_addr == old(self).local_gtpu_addr,
            final(self).sessions.ul_index() == old(self).sessions.ul_index(),
            final(self).sessions.ip_index() == old(self).sessions.ip_index(),
            ({
                let k = acc.upf_seid;
                let bytes = pkt@.len() as u64;
                let ids = acc.urr_ids@;
                if acc.police is Some && !rate_ok {
                    &&& r matches DownlinkDelivery::Dropped(c) && c == DropCause::Policed
                    &&& final(self).sessions.sessions() == old(self).sessions.sessions()
                    &&& final(self).stats == counted_drop(old(self).stats)
                } else if !old(self).sessions.sessions().contains_key(k) {
                    &&& r matches DownlinkDelivery::Dropped(c) && c == DropCause::NoSession
                    &&& final(self).sessions.sessions() == old(self).sessions.sessions()
                    &&& final(self).stats == counted_drop(old(self).stats)
                } else {
                    let s = old(self).sessions.sessions()[k];
                    match far_verdict(s, acc.far_id) {
                        Some(FarDecision::Drop) => {
                            &&& r matches DownlinkDelivery::Dropped(c) && c == DropCause::FarDrop
                            &&& final(self).sessions.sessions() == old(self).sessions.sessions()
                            &&& final(self).stats == counted_drop(old(self).stats)
                        },
                        Some(FarDecision::Buffer { nocp, bar_id }) => {
                            let t = final(self).sessions.sessions()[k];
                            &&& final(self).stats == (if s.dl_buffer@.len() >= buffer_capacity(s.bars@, bar_id) {
                                counted_drop(old(self).stats)
                            } else {
                                old(self).stats
                            })
                            &&& final(self).sessions.sessions() == old(self).sessions.sessions().insert(k, t)
                            &&& if s.dl_buffer@.len() >= buffer_capacity(s.bars@, bar_id) {
                                &&& r matches DownlinkDelivery::Dropped(c) && c == DropCause::BufferFull
                                &&& t.dl_buffer@ == s.dl_buffer@ && t.ddn_sent == s.ddn_sent
                            } else {
                                &&& r == DownlinkDelivery::Buffered(
                                    if nocp && !s.ddn_sent {
                                        Some(
                                            UpfReportEvent::DownlinkDataReport {
                                                upf_seid: s.upf_seid,
                                                smf_seid: s.smf_seid,
                                                pdr_id: report_pdr_id(s.pdrs@, acc.far_id.unwrap()),
                                                qfi: acc.qfi,
                                            },
                                        )
                                    } else {
                                        None
                                    },
                                )
                                &&& t.dl_buffer@.len() == s.dl_buffer@.len() + 1
                                &&& t.dl_buffer@.take(s.dl_buffer@.len() as int) == s.dl_buffer@
                                &&& t.dl_buffer@.last()@ == pkt@
                                &&& t.ddn_sent
                            }
                            &&& same_but_buffer(s, t)
                        },
                        _ => {
                            let (teid, to) = match far_verdict(s, acc.far_id) {
                                Some(FarDecision::Forward { ohc_teid, ohc_addr }) => (
                                    match ohc_teid {
                                        Some(t) => t,
                                        None => s.dl_teid,
                                    },
                                    match ohc_addr {
                                        Some(a) => PeerAddr { ip: a, port: GTPU_PORT },
                                        None => s.gnb_addr,
                                    },
                                ),
                                _ => (s.dl_teid, s.gnb_addr),
                            };
                            if ids.len() > 0 && !urrs_fit(s.urrs@, bytes, ids.len() as int) {
                                &&& r matches DownlinkDelivery::Dropped(c) && c == DropCause::CountersFull
                                &&& final(self).sessions.sessions() == old(self).sessions.sessions()
                                &&& final(self).stats == counted_drop(old(self).stats)
                            } else {
                                &&& final(self).sessions.sessions().contains_key(k)
                                &&& final(self).sessions.sessions() == old(self).sessions.sessions().insert(
                                    k,
                                    final(self).sessions.sessions()[k],
                                )
                                &&& urrs_counted(s, final(self).sessions.sessions()[k], ids, bytes, false, now_secs)
                                &&& if ids.len() > 0 && urrs_refuse(s.urrs@, ids, bytes, false, now_secs) {
                                    &&& r matches DownlinkDelivery::Dropped(c) && c == DropCause::QuotaExhausted
                                    &&& final(self).stats == counted_drop(old(self).stats)
                                } else {
                                    &&& r matches DownlinkDelivery::Send { packet, to: dest, tos } && packet@ == dl_gpdu(
                                        pkt@,
                                        teid,
                                        acc.qfi,
                                    ) && dest == to && tos == outer_tos(acc.dscp)
                                    &&& final(self).stats == old(self).stats
                                }
                            }
                        },
                    }
                }
            }),
    {
        if acc.police.is_some() && !rate_ok {
            self.stats.dropped_packets = self.stats.dropped_packets.wrapping_add(1);
            return DownlinkDelivery::Dropped(DropCause::Policed);
        }
        let k = acc.upf_seid;
        let ghost m0 = self.sessions.sessions();
        let mut session = match self.sessions.take_session(k) {
            Some(s) => s,
            None => {
                self.stats.dropped_packets = self.stats.dropped_packets.wrapping_add(1);
                return DownlinkDelivery::Dropped(DropCause::NoSession);
            },
        };
        let ghost s0 = session;
        assert(s0 == m0[k]);
        let bytes = pkt.len() as u64;
        let (teid, to) = match acc.far_id {
            Some(fid) => match session.apply_far(fid) {
                FarDecision::Forward { ohc_teid, ohc_addr } => {
                    let teid = match ohc_teid {
                        Some(t) => t,
                        None => session.dl_teid,
                    };
                    let to = match ohc_addr {
                        Some(a) => PeerAddr { ip: a, port: GTPU_PORT },
                        None => session.gnb_addr,
                    };
                    (teid, to)
                },
                FarDecision::Drop => {
                    self.sessions.put_session(k, session);
                    assert(self.sessions.sessions() =~= m0);
                    self.stats.dropped_packets = self.stats.dropped_packets.wrapping_add(1);
                    return DownlinkDelivery::Dropped(DropCause::FarDrop);
                },
                FarDecision::Buffer { nocp, bar_id } => {
                    let mut copy: Vec<u8> = Vec::new();
                    copy.extend_from_slice(pkt);
                    let (buffered, first) = session.buffer_dl_packet(copy, bar_id);
                    if !buffered {
                        self.sessions.put_session(k, session);
                        self.stats.dropped_packets = self.stats.dropped_packets.wrapping_add(1);
                        return DownlinkDelivery::Dropped(DropCause::BufferFull);
                    }
                    let report = if first && nocp {
                        let pdr_id = find_report_pdr_id(&session.pdrs, fid);
                        Some(
                            UpfReportEvent::DownlinkDataReport {
                                upf_seid: session.upf_seid,
                                smf_seid: session.smf_seid,
                                pdr_id,
                                qfi: acc.qfi,
                            },
                        )
                    } else {
                        None
                    };
                    proof {
                        assert(session.dl_buffer@.take(s0.dl_buffer@.len() as int) =~= s0.dl_buffer@);
                    }
                    self.sessions.put_session(k, session);
                    return DownlinkDelivery::Buffered(report);
                },
            },
            None => (session.dl_teid, session.gnb_addr),
        };
        let n = acc.urr_ids.len();
        if n > 0 {
            if !urrs_have_room(&session.urrs, bytes, n) {
                self.sessions.put_session(k, session);
                assert(self.sessions.sessions() =~= m0);
                self.stats.dropped_packets = self.stats.dropped_packets.wrapping_add(1);
                return DownlinkDelivery::Dropped(DropCause::CountersFull);
            }
            let refused = session.record_urrs(acc.urr_ids.as_slice(), bytes, false, now_secs);
            if refused {
                assert(urrs_counted(s0, session, acc.urr_ids@, bytes, false, now_secs));
                self.sessions.put_session(k, session);
                self.stats.dropped_packets = self.stats.dropped_packets.wrapping_add(1);
                return DownlinkDelivery::Dropped(DropCause::QuotaExhausted);
            }
        }
        assert(urrs_counted(s0, session, acc.urr_ids@, bytes, false, now_secs));
        self.sessions.put_session(k, session);
        let tos: u8 = match acc.dscp {
            Some(d) => (d & 0x3F) << 2u8,
            None => 0,
        };
        let packet = encapsulate_dl_gpdu(pkt, teid, acc.qfi);
        DownlinkDelivery::Send { packet, to, tos }
    }

    /// Counts a downlink packet of `bytes` octets sent to a gNB, in its
    /// session (when still there) and in the data plane counters.
    pub fn note_downlink_sent(&mut self, upf_seid: u64, bytes: u64)
        ensures
            final(self).path_table == old(self).path_table,
            final(self).sessions.ul_index() == old(self).sessions.ul_index(),
            final(self).sessions.ip_index() == old(self).sessions.ip_index(),
            final(self).stats == (DataPlaneStats {
                dl_packets: bump(old(self).stats.dl_packets),
                dl_bytes: wrap_add(old(self).stats.dl_bytes, bytes),
                ..old(self).stats
            }),
            !old(self).sessions.sessions().contains_key(upf_seid) ==> final(self).sessions.sessions()
                == old(self).sessions.sessions(),
            old(self).sessions.sessions().contains_key(upf_seid) ==> {
                let s = old(self).sessions.sessions()[upf_seid];
                let t = final(self).sessions.sessions()[upf_seid];
                &&& final(self).sessions.sessions() == old(self).sessions.sessions().insert(upf_seid, t)
                &&& t.dl_packets == bump(s.dl_packets) && t.dl_bytes == wrap_add(s.dl_bytes, bytes)
                &&& t.ul_packets == s.ul_packets && t.ul_bytes == s.ul_bytes
                &&& t.upf_seid == s.upf_seid && t.smf_seid == s.smf_seid && t.ue_ipv4 == s.ue_ipv4
                &&& t.ul_teid == s.ul_teid && t.dl_teid == s.dl_teid && t.gnb_addr == s.gnb_addr
                &&& t.pdrs == s.pdrs && t.fars@ == s.fars@ && t.qers@ == s.qers@ && t.urrs@ == s.urrs@
                &&& t.bars@ == s.bars@ && t.dl_buffer@ == s.dl_buffer@ && t.ddn_sent == s.ddn_sent
            },
    {
        if let Some(mut s) = self.sessions.take_session(upf_seid) {
            s.dl_packets = s.dl_packets.wrapping_add(1);
            s.dl_bytes = s.dl_bytes.wrapping_add(bytes);
            self.sessions.put_session(upf_seid, s);
        }
        self.stats.dl_packets = self.stats.dl_packets.wrapping_add(1);
        self.stats.dl_bytes = self.stats.dl_bytes.wrapping_add(bytes);
    }

    /// Some FAR of a session that forwards toward Access, when one does.
    fn access_forward_far(s: &DataPlaneSession) -> (r: Option<DataPlaneFar>)
        ensures
            match r {
                Some(f) => forwards_to_access(f) && exists|k: u32| #[trigger] s.fars@.contains_key(k) && s.fars@[k] == f,
                None => forall|k: u32| #[trigger] s.fars@.contains_key(k) ==> !forwards_to_access(s.fars@[k]),
            },
    {
        let keys = keys_of(&s.fars);
        let n = keys.len();
        let mut i: usize = 0;
        while i < n
            invariant
                n == keys@.len(),
                i <= n,
                keys@.to_set() == s.fars@.dom(),
                forall|j: int| 0 <= j < i ==> !forwards_to_access(s.fars@[#[trigger] keys@[j]]),
            decreases n - i,
        {
            let k = keys[i];
            assert(keys@.to_set().contains(k));
            let f = *s.fars.get(&k).unwrap();
            if f.destination_interface == SRC_INTF_ACCESS && f.apply_action & FAR_ACTION_FORW != 0 {
                assert(s.fars@.contains_key(k) && s.fars@[k] == f);
                return Some(f);
            }
            i = i + 1;
        }
        proof {
            assert forall|k: u32| #[trigger] s.fars@.contains_key(k) implies !forwards_to_access(s.fars@[k]) by {
                assert(keys@.to_set().contains(k));
                let j = choose|j: int| 0 <= j < n && keys@[j] == k;
                assert(!forwards_to_access(s.fars@[keys@[j]]));
            }
        }
        None
    }

    /// Frames buffered packets as G-PDUs (see `flushed`); the packets that
    /// cannot be framed are counted as dropped.
    fn frame_buffered(&mut self, bufs: Vec<Vec<u8>>, teid: u32, qfi: Option<u8>) -> (out: Vec<Vec<u8>>)
        ensures
            out@.len() == flushed(bufs@, teid, qfi).len(),
            forall|i: int| 0 <= i < out@.len() ==> #[trigger] out@[i]@ == flushed(bufs@, teid, qfi)[i],
            final(self).sessions == old(self).sessions,
            final(self).path_table == old(self).path_table,
            final(self).local_gtpu_addr == old(self).local_gtpu_addr,
    {
        let mut out: Vec<Vec<u8>> = Vec::new();
        let n = bufs.len();
        let mut i: usize = 0;
        while i < n
            invariant
                n == bufs@.len(),
                i <= n,
                out@.len() == flushed(bufs@.take(i as int), teid, qfi).len(),
                forall|j: int| 0 <= j < out@.len() ==> #[trigger] out@[j]@ == flushed(bufs@.take(i as int), teid, qfi)[j],
                self.sessions == old(self).sessions,
                self.path_table == old(self).path_table,
                self.local_gtpu_addr == old(self).local_gtpu_addr,
            decreases n - i,
        {
            let p = &bufs[i];
            proof {
                assert(bufs@.take(i + 1).drop_last() =~= bufs@.take(i as int));
                assert(bufs@.take(i + 1).last() == bufs@[i as int]);
            }
            let ok = match qfi {
                Some(_) => p.len() % 0x1_0000 + 8 <= 0xFFFF,
                None => true,
            };
            if ok {
                let g = encapsulate_dl_gpdu(p.as_slice(), teid, qfi);
                out.push(g);
            } else {
                self.stats.dropped_packets = self.stats.dropped_packets.wrapping_add(1);
            }
            i = i + 1;
        }
        assert(bufs@.take(n as int) =~= bufs@);
        out
    }

    /// Takes the downlink packets buffered for a session once a FAR toward
    /// Access forwards again (TS 23.502 4.2.3.3): with no such FAR nothing
    /// happens; otherwise the buffer is emptied, ending the buffering
    /// episode, and, when it held packets, returns where to send them (the
    /// FAR's tunnel, else the session's) and their G-PDUs, oldest first,
    /// with the session's QFI.
    pub fn flush_buffered_dl(&mut self, upf_seid: u64) -> (r: Option<(PeerAddr, Vec<Vec<u8>>)>)
        ensures
            final(self).path_table == old(self).path_table,
            final(self).sessions.ul_index() == old(self).sessions.ul_index(),
            final(self).sessions.ip_index() == old(self).sessions.ip_index(),
            !old(self).sessions.sessions().contains_key(upf_seid) ==> r is None && final(self).sessions.sessions()
                == old(self).sessions.sessions(),
            old(self).sessions.sessions().contains_key(upf_seid) ==> {
                let s = old(self).sessions.sessions()[upf_seid];
                let t = final(self).sessions.sessions()[upf_seid];
                if forall|k: u32| #[trigger] s.fars@.contains_key(k) ==> !forwards_to_access(s.fars@[k]) {
                    r is None && final(self).sessions.sessions() == old(self).sessions.sessions()
                } else {
                    &&& final(self).sessions.sessions() == old(self).sessions.sessions().insert(upf_seid, t)
                    &&& t.dl_buffer@.len() == 0 && !t.ddn_sent && same_but_buffer(s, t)
                    &&& (s.dl_buffer@.len() == 0 <==> r is None)
                    &&& r matches Some((to, pkts)) ==> exists|k: u32|
                        #[trigger] s.fars@.contains_key(k) && forwards_to_access(s.fars@[k]) && {
                            let f = s.fars@[k];
                            let teid = match f.ohc_teid {
                                Some(x) => x,
                                None => s.dl_teid,
                            };
                            &&& to == (match f.ohc_addr {
                                Some(a) => PeerAddr { ip: a, port: GTPU_PORT },
                                None => s.gnb_addr,
                            })
                            &&& pkts@.len() == flushed(s.dl_buffer@, teid, s.qfi).len()
                            &&& forall|i: int|
                                0 <= i < pkts@.len() ==> #[trigger] pkts@[i]@ == flushed(s.dl_buffer@, teid, s.qfi)[i]
                        }
                }
            },
    {
        let ghost m0 = self.sessions.sessions();
        let mut session = match self.sessions.take_session(upf_seid) {
            Some(s) => s,
            None => {
                return None;
            },
        };
        let ghost s0 = session;
        let far = match Self::access_forward_far(&session) {
            Some(f) => f,
            None => {
                self.sessions.put_session(upf_seid, session);
                assert(self.sessions.sessions() =~= m0);
                return None;
            },
        };
        let pkts = session.drain_dl_buffer();
        let teid = match far.ohc_teid {
            Some(t) => t,
            None => session.dl_teid,
        };
        let to = match far.ohc_addr {
            Some(a) => PeerAddr { ip: a, port: GTPU_PORT },
            None => session.gnb_addr,
        };
        let qfi = session.qfi;
        self.sessions.put_session(upf_seid, session);
        if pkts.len() == 0 {
            return None;
        }
        let framed = self.frame_buffered(pkts, teid, qfi);
        Some((to, framed))
    }

    /// Removes the session a PFCP deletion names, with its index entries
    /// (see `SessionManager::remove_session_by_seid`); returns whether
    /// there was one.
    pub fn remove_session_from_pfcp(&mut self, upf_seid: u64) -> (r: bool)
        ensures
            r == old(self).sessions.sessions().contains_key(upf_seid),
            final(self).sessions.sessions() == old(self).sessions.sessions().remove(upf_seid),
            r ==> {
                let s = old(self).sessions.sessions()[upf_seid];
                &&& final(self).sessions.ul_index() == old(self).sessions.ul_index().remove(s.ul_teid)
                &&& final(self).sessions.ip_index() == (match s.ue_ipv4 {
                    Some(a) => old(self).sessions.ip_index().remove(ip_key(a)),
                    None => old(self).sessions.ip_index(),
                })
            },
            !r ==> final(self).sessions.ul_index() == old(self).sessions.ul_index()
                && final(self).sessions.ip_index() == old(self).sessions.ip_index(),
            final(self).stats == old(self).stats,
            final(self).path_table == old(self).path_table,
    {
        self.sessions.remove_session_by_seid(upf_seid)
    }

    /// The uplink and downlink packet and octet counts of a session.
    pub fn get_session_stats(&self, upf_seid: u64) -> (r: Option<(u64, u64, u64, u64)>)
        ensures
            r == (if self.sessions.sessions().contains_key(upf_seid) {
                let s = self.sessions.sessions()[upf_seid];
                Some((s.ul_packets, s.dl_packets, s.ul_bytes, s.dl_bytes))
            } else {
                None
            }),
    {
        match self.sessions.find_by_seid(upf_seid) {
            Some(s) => Some((s.ul_packets, s.dl_packets, s.ul_bytes, s.dl_bytes)),
            None => None,
        }
    }

    /// The statistics row of every session (see
    /// `SessionManager::get_all_session_stats`).
    pub fn get_all_session_stats(&self) -> (stats: Vec<(u64, Option<[u8; 4]>, u64, u64, u64, u64)>)
        ensures
            exists|ks: Seq<u64>|
                #![trigger ks.to_set()]
                ks.no_duplicates() && ks.to_set() == self.sessions.sessions().dom() && stats@.len() == ks.len()
                    && forall|i: int|
                    0 <= i < ks.len() ==> #[trigger] stats@[i] == session_stat(self.sessions.sessions()[ks[i]]),
    {
        self.sessions.get_all_session_stats()
    }

    /// Registers the gNB of every session as an N3 path peer (a peer
    /// already known keeps its state). Returns whether there is any
    /// session; with none, nothing changes.
    pub fn register_session_peers(&mut self) -> (any: bool)
        requires
            old(self).path_table.wf(),
        ensures
            final(self).path_table.wf(),
            any == (old(self).sessions.sessions().len() > 0),
            final(self).sessions == old(self).sessions,
            final(self).stats == old(self).stats,
            final(self).path_table.next_seq() == old(self).path_table.next_seq(),
            final(self).path_table.same_settings(&old(self).path_table),
            forall|k: u64| #[trigger]
                old(self).path_table.peers().contains_key(k) ==> final(self).path_table.peers().contains_key(k)
                    && final(self).path_table.peers()[k] == old(self).path_table.peers()[k],
            forall|q: u64| #[trigger]
                old(self).sessions.sessions().contains_key(q) ==> final(self).path_table.peers().contains_key(
                    peer_key(old(self).sessions.sessions()[q].gnb_addr),
                ),
            forall|k: u64| #[trigger]
                final(self).path_table.peers().contains_key(k) && !old(self).path_table.peers().contains_key(k) ==> {
                    &&& final(self).path_table.peers()[k].1 == GtpuPeerState::default_state()
                    &&& exists|q: u64|
                        #[trigger] old(self).sessions.sessions().contains_key(q) && final(self).path_table.peers()[k].0
                            == old(self).sessions.sessions()[q].gnb_addr && peer_key(old(self).sessions.sessions()[q].gnb_addr) == k
                },
    {
        let keys = self.sessions.seids();
        let n = keys.len();
        let ghost p0 = self.path_table.peers();
        let mut i: usize = 0;
        while i < n
            invariant
                n == keys@.len(),
                i <= n,
                keys@.to_set() == self.sessions.sessions().dom(),
                self.sessions == old(self).sessions,
                self.stats == old(self).stats,
                self.path_table.wf(),
                p0 == old(self).path_table.peers(),
                self.path_table.next_seq() == old(self).path_table.next_seq(),
                self.path_table.same_settings(&old(self).path_table),
                forall|k: u64| #[trigger] p0.contains_key(k) ==> self.path_table.peers().contains_key(k)
                    && self.path_table.peers()[k] == p0[k],
                forall|j: int| 0 <= j < i ==> self.path_table.peers().contains_key(
                    peer_key(#[trigger] self.sessions.sessions()[keys@[j]].gnb_addr),
                ),
                forall|k: u64| #[trigger]
                    self.path_table.peers().contains_key(k) && !p0.contains_key(k) ==> {
                        &&& self.path_table.peers()[k].1 == GtpuPeerState::default_state()
                        &&& exists|q: u64|
                            #[trigger] self.sessions.sessions().contains_key(q) && self.path_table.peers()[k].0
                                == self.sessions.sessions()[q].gnb_addr && peer_key(self.sessions.sessions()[q].gnb_addr) == k
                    },
            decreases n - i,
        {
            let q = keys[i];
            assert(keys@.to_set().contains(q));
            let addr = self.sessions.find_by_seid(q).unwrap().gnb_addr;
            self.path_table.add_peer(addr);
            i = i + 1;
        }
        proof {
            assert forall|q: u64| #[trigger] self.sessions.sessions().contains_key(q) implies self.path_table.peers().contains_key(
                peer_key(self.sessions.sessions()[q].gnb_addr),
            ) by {
                assert(keys@.to_set().contains(q));
                let j = choose|j: int| 0 <= j < n && keys@[j] == q;
                assert(self.path_table.peers().contains_key(peer_key(self.sessions.sessions()[keys@[j]].gnb_addr)));
            }
            if n > 0 {
                assert(keys@.to_set().contains(keys@[0]));
            } else {
                assert(self.sessions.sessions().dom() =~= Set::<u64>::empty());
            }
        }
        n > 0
    }

    /// The Echo Requests for the requests a path tick asks for: each to its
    /// peer, with its sequence number and our restart counter.
    pub fn echo_requests(&self, to_send: &Vec<(PeerAddr, u16)>) -> (reqs: Vec<(PeerAddr, Vec<u8>)>)
        ensures
            reqs@.len() == to_send@.len(),
            forall|i: int|
                0 <= i < reqs@.len() ==> (#[trigger] reqs@[i]).0 == to_send@[i].0 && reqs@[i].1@ == echo_message(
                    gtpu_msg_type::ECHO_REQUEST,
                    to_send@[i].1,
                    self.path_table.restart_counter_value(),
                ),
    {
        let rc = self.path_table.current_restart_counter();
        let mut reqs: Vec<(PeerAddr, Vec<u8>)> = Vec::new();
        let n = to_send.len();
        let mut i: usize = 0;
        while i < n
            invariant
                n == to_send@.len(),
                i <= n,
                rc == self.path_table.restart_counter_value(),
                reqs@.len() == i,
                forall|j: int|
                    0 <= j < i ==> (#[trigger] reqs@[j]).0 == to_send@[j].0 && reqs@[j].1@ == echo_message(
                        gtpu_msg_type::ECHO_REQUEST,
                        to_send@[j].1,
                        rc,
                    ),
            decreases n - i,
        {
            let (peer, seq) = to_send[i];
            reqs.push((peer, build_gtpu_echo_request(seq, rc)));
            i = i + 1;
        }
        reqs
    }

    /// The UPF SEIDs of the sessions whose gNB is `peer`.
    pub fn sessions_on_peer(&self, peer: PeerAddr) -> (seids: Vec<u64>)
        ensures
            forall|x: u64|
                seids@.contains(x) <==> exists|q: u64|
                    #[trigger] self.sessions.sessions().contains_key(q) && self.sessions.sessions()[q].gnb_addr == peer
                        && self.sessions.sessions()[q].upf_seid == x,
    {
        let keys = self.sessions.seids();
        let n = keys.len();
        let mut out: Vec<u64> = Vec::new();
        let mut i: usize = 0;
        while i < n
            invariant
                n == keys@.len(),
                i <= n,
                keys@.to_set() == self.sessions.sessions().dom(),
                forall|x: u64|
                    out@.contains(x) <==> exists|j: int|
                        0 <= j < i && #[trigger] self.sessions.sessions()[keys@[j]].gnb_addr == peer
                            && self.sessions.sessions()[keys@[j]].upf_seid == x,
            decreases n - i,
        {
            let q = keys[i];
            assert(keys@.to_set().contains(q));
            let s = self.sessions.find_by_seid(q).unwrap();
            let ghost before = out@;
            if s.gnb_addr.same(&peer) {
                out.push(s.upf_seid);
            }
            proof {
                assert forall|x: u64|
                    out@.contains(x) <==> exists|j: int|
                        0 <= j < i + 1 && #[trigger] self.sessions.sessions()[keys@[j]].gnb_addr == peer
                            && self.sessions.sessions()[keys@[j]].upf_seid == x by {
                    if out@.contains(x) {
                        if before.contains(x) {
                        } else {
                            assert(out@[out@.len() - 1] == x);
                            assert(self.sessions.sessions()[keys@[i as int]].gnb_addr == peer);
                        }
                    }
                    if exists|j: int|
                        0 <= j < i + 1 && #[trigger] self.sessions.sessions()[keys@[j]].gnb_addr == peer
                            && self.sessions.sessions()[keys@[j]].upf_seid == x {
                        let j = choose|j: int|
                            0 <= j < i + 1 && #[trigger] self.sessions.sessions()[keys@[j]].gnb_addr == peer
                                && self.sessions.sessions()[keys@[j]].upf_seid == x;
                        if j < i {
                            assert(before.contains(x));
                            let t = choose|t: int| 0 <= t < before.len() && before[t] == x;
                            assert(out@[t] == x);
                        } else {
                            assert(out@[out@.len() - 1] == x);
                        }
                    }
                }
            }
            i = i + 1;
        }
        proof {
            assert forall|x: u64|
                out@.contains(x) <==> exists|q: u64|
                    #[trigger] self.sessions.sessions().contains_key(q) && self.sessions.sessions()[q].gnb_addr == peer
                        && self.sessions.sessions()[q].upf_seid == x by {
                if out@.contains(x) {
                    let j = choose|j: int|
                        0 <= j < n && #[trigger] self.sessions.sessions()[keys@[j]].gnb_addr == peer
                            && self.sessions.sessions()[keys@[j]].upf_seid == x;
                    assert(keys@.to_set().contains(keys@[j]));
                }
                if exists|q: u64|
                    #[trigger] self.sessions.sessions().contains_key(q) && self.sessions.sessions()[q].gnb_addr == peer
                        && self.sessions.sessions()[q].upf_seid == x {
                    let q = choose|q: u64|
                        #[trigger] self.sessions.sessions().contains_key(q) && self.sessions.sessions()[q].gnb_addr
                            == peer && self.sessions.sessions()[q].upf_seid == x;
                    assert(keys@.to_set().contains(q));
                    let j = choose|j: int| 0 <= j < n && keys@[j] == q;
                    assert(self.sessions.sessions()[keys@[j]].gnb_addr == peer);
                }
            }
        }
        out
    }

    /// Collects the usage reports due in every session (see `report_due`),
    /// session by session, and resets the URRs reported. Each report due
    /// comes once, with the URR's UR-SEQN, which moves on.
    pub fn collect_urr_reports(&mut self, now_secs: u64) -> (reports: Vec<UrrReportEntry>)
        ensures
            final(self).sessions.sessions().dom() == old(self).sessions.sessions().dom(),
            forall|k: u64| #[trigger]
                old(self).sessions.sessions().contains_key(k) ==> session_reported(
                    old(self).sessions.sessions()[k],
                    final(self).sessions.sessions()[k],
                    now_secs,
                ),
            final(self).sessions.ul_index() == old(self).sessions.ul_index(),
            final(self).sessions.ip_index() == old(self).sessions.ip_index(),
            final(self).stats == old(self).stats,
            final(self).path_table == old(self).path_table,
            exists|pairs: Seq<(u64, u32)>|
                #![trigger pairs.no_duplicates()]
                pairs.no_duplicates() && pairs.len() == reports@.len() && (forall|t: int|
                    0 <= t < pairs.len() ==> #[trigger] reports@[t] == urr_report(
                        old(self).sessions.sessions()[pairs[t].0],
                        pairs[t].1,
                        old(self).sessions.sessions()[pairs[t].0].urrs@[pairs[t].1],
                    )) && (forall|k: u64, id: u32| #[trigger]
                    pairs.contains((k, id)) <==> (old(self).sessions.sessions().contains_key(k)
                        && old(self).sessions.sessions()[k].urrs@.contains_key(id) && report_due(
                        old(self).sessions.sessions()[k].urrs@[id],
                        now_secs,
                    ))),
    {
        let ghost m0 = self.sessions.sessions();
        let keys = self.sessions.seids();
        let n = keys.len();
        let mut out: Vec<UrrReportEntry> = Vec::new();
        let ghost mut pairs: Seq<(u64, u32)> = Seq::empty();
        let mut i: usize = 0;
        while i < n
            invariant
                n == keys@.len(),
                i <= n,
                keys@.to_set() == m0.dom(),
                keys@.no_duplicates(),
                m0 == old(self).sessions.sessions(),
                self.sessions.sessions().dom() == m0.dom(),
                self.sessions.ul_index() == old(self).sessions.ul_index(),
                self.sessions.ip_index() == old(self).sessions.ip_index(),
                self.stats == old(self).stats,
                self.path_table == old(self).path_table,
                forall|j: int| 0 <= j < i ==> session_reported(m0[keys@[j]], #[trigger] self.sessions.sessions()[keys@[j]], now_secs),
                forall|j: int| i <= j < n ==> #[trigger] self.sessions.sessions()[keys@[j]] == m0[keys@[j]],
                pairs.no_duplicates(),
                pairs.len() == out@.len(),
                forall|t: int|
                    0 <= t < pairs.len() ==> #[trigger] out@[t] == urr_report(m0[pairs[t].0], pairs[t].1, m0[pairs[t].0].urrs@[pairs[t].1]),
                forall|k: u64, id: u32| #[trigger]
                    pairs.contains((k, id)) <==> exists|j: int|
                        0 <= j < i && keys@[j] == k && m0[k].urrs@.contains_key(id) && report_due(m0[k].urrs@[id], now_secs),
            decreases n - i,
        {
            let k = keys[i];
            assert(keys@.to_set().contains(k));
            proof {
                assert forall|j: int| 0 <= j < n && j != i implies keys@[j] != k by {}
            }
            let ghost o0 = out@;
            let ghost p0 = pairs;
            let mut sess = self.sessions.take_session(k).unwrap();
            let ids = collect_session_reports(&mut sess, now_secs, &mut out);
            self.sessions.put_session(k, sess);
            proof {
                let add = ids@.map_values(|id: u32| (k, id));
                pairs = p0 + add;
                assert forall|a: int, b: int| 0 <= a < b < pairs.len() implies pairs[a] != pairs[b] by {
                    if a < p0.len() && b >= p0.len() {
                        assert(p0.contains(p0[a]));
                        let j = choose|j: int|
                            0 <= j < i && keys@[j] == p0[a].0 && m0[p0[a].0].urrs@.contains_key(p0[a].1) && report_due(
                                m0[p0[a].0].urrs@[p0[a].1],
                                now_secs,
                            );
                    } else if a >= p0.len() {
                        assert(ids@[a - p0.len()] != ids@[b - p0.len()]);
                    }
                }
                assert forall|t: int| 0 <= t < pairs.len() implies #[trigger] out@[t] == urr_report(
                    m0[pairs[t].0],
                    pairs[t].1,
                    m0[pairs[t].0].urrs@[pairs[t].1],
                ) by {
                    if t < p0.len() {
                        assert(out@[t] == o0[t]);
                    } else {
                        let t2 = t - p0.len();
                        assert(out@[o0.len() + t2] == urr_report(m0[k], ids@[t2], m0[k].urrs@[ids@[t2]]));
                    }
                }
                assert forall|kk: u64, id: u32| #[trigger]
                    pairs.contains((kk, id)) <==> exists|j: int|
                        0 <= j < i + 1 && keys@[j] == kk && m0[kk].urrs@.contains_key(id) && report_due(
                            m0[kk].urrs@[id],
                            now_secs,
                        ) by {
                    if pairs.contains((kk, id)) {
                        let t = choose|t: int| 0 <= t < pairs.len() && pairs[t] == (kk, id);
                        if t < p0.len() {
                            assert(p0.contains((kk, id)));
                        } else {
                            assert(ids@.contains(ids@[t - p0.len()]));
                            assert(keys@[i as int] == kk);
                        }
                    }
                    if exists|j: int|
                        0 <= j < i + 1 && keys@[j] == kk && m0[kk].urrs@.contains_key(id) && report_due(
                            m0[kk].urrs@[id],
                            now_secs,
                        ) {
                        let j = choose|j: int|
                            0 <= j < i + 1 && keys@[j] == kk && m0[kk].urrs@.contains_key(id) && report_due(
                                m0[kk].urrs@[id],
                                now_secs,
                            );
                        if j < i {
                            assert(p0.contains((kk, id)));
                            let t = choose|t: int| 0 <= t < p0.len() && p0[t] == (kk, id);
                            assert(pairs[t] == (kk, id));
                        } else {
                            assert(ids@.contains(id));
                            let t = choose|t: int| 0 <= t < ids@.len() && ids@[t] == id;
                            assert(pairs[p0.len() + t] == (kk, id));
                        }
                    }
                }
            }
            i = i + 1;
        }
        proof {
            assert forall|k: u64| #[trigger] m0.contains_key(k) implies session_reported(
                m0[k],
                self.sessions.sessions()[k],
                now_secs,
            ) by {
                assert(keys@.to_set().contains(k));
                let j = choose|j: int| 0 <= j < n && keys@[j] == k;
                assert(session_reported(m0[keys@[j]], self.sessions.sessions()[keys@[j]], now_secs));
            }
            assert forall|k: u64, id: u32| #[trigger]
                pairs.contains((k, id)) <==> (m0.contains_key(k) && m0[k].urrs@.contains_key(id) && report_due(
                    m0[k].urrs@[id],
                    now_secs,
                )) by {
                if m0.contains_key(k) && m0[k].urrs@.contains_key(id) && report_due(m0[k].urrs@[id], now_secs) {
                    assert(keys@.to_set().contains(k));
                    let j = choose|j: int| 0 <= j < n && keys@[j] == k;
                }
                if pairs.contains((k, id)) {
                    let j = choose|j: int|
                        0 <= j < n && keys@[j] == k && m0[k].urrs@.contains_key(id) && report_due(m0[k].urrs@[id], now_secs);
                    assert(keys@.to_set().contains(keys@[j]));
                }
            }
        }
        out
    }

    /// Installs the session a PFCP establishment creates (see
    /// `pfcp_default_session`), under its SEID, uplink TEID and UE address.
    pub fn add_session_from_pfcp(
        &mut self,
        upf_seid: u64,
        smf_seid: u64,
        ue_ip: [u8; 4],
        ul_teid: u32,
        dl_teid: u32,
        gnb_addr: PeerAddr,
        pdu_session_id: Option<u8>,
        qfi: Option<u8>,
    )
        ensures
            final(self).sessions.sessions().contains_key(upf_seid),
            pfcp_default_session(
                final(self).sessions.sessions()[upf_seid],
                upf_seid,
                smf_seid,
                ue_ip,
                ul_teid,
                dl_teid,
                gnb_addr,
                pdu_session_id,
                qfi,
            ),
            final(self).sessions.sessions() == old(self).sessions.sessions().insert(
                upf_seid,
                final(self).sessions.sessions()[upf_seid],
            ),
            final(self).sessions.ul_index() == unlinked_ul(old(self).sessions, upf_seid).insert(ul_teid, upf_seid),
            final(self).sessions.ip_index() == unlinked_ip(old(self).sessions, upf_seid).insert(ip_key(ue_ip), upf_seid),
            final(self).stats == old(self).stats,
            final(self).path_table == old(self).path_table,
    {
        let mut session = DataPlaneSession::new_empty(
            upf_seid,
            smf_seid,
            Some(ue_ip),
            ul_teid,
            dl_teid,
            gnb_addr,
            pdu_session_id,
            qfi,
        );
        session.pdrs.push(
            DataPlanePdr {
                pdr_id: 1,
                precedence: 100,
                source_interface: SRC_INTF_ACCESS,
                far_id: Some(1),
                qer_id: None,
                urr_ids: Vec::new(),
                outer_header_removal: Some(0),
                sdf_rule: None,
                qfi: None,
            },
        );
        session.pdrs.push(
            DataPlanePdr {
                pdr_id: 2,
                precedence: 100,
                source_interface: SRC_INTF_CORE,
                far_id: Some(2),
                qer_id: None,
                urr_ids: Vec::new(),
                outer_header_removal: None,
                sdf_rule: None,
                qfi: None,
            },
        );
        session.fars.insert(
            1,
            DataPlaneFar {
                far_id: 1,
                apply_action: FAR_ACTION_FORW,
                destination_interface: SRC_INTF_CORE,
                ohc_teid: None,
                ohc_addr: None,
                bar_id: None,
            },
        );
        session.fars.insert(
            2,
            DataPlaneFar {
                far_id: 2,
                apply_action: FAR_ACTION_FORW,
                destination_interface: SRC_INTF_ACCESS,
                ohc_teid: Some(dl_teid),
                ohc_addr: Some(gnb_addr.ip),
                bar_id: None,
            },
        );
        proof {
            assert(session.fars@ =~= map![
                1u32 => DataPlaneFar {
                    far_id: 1,
                    apply_action: FAR_ACTION_FORW,
                    destination_interface: SRC_INTF_CORE,
                    ohc_teid: None,
                    ohc_addr: None,
                    bar_id: None,
                },
                2u32 => DataPlaneFar {
                    far_id: 2,
                    apply_action: FAR_ACTION_FORW,
                    destination_interface: SRC_INTF_ACCESS,
                    ohc_teid: Some(dl_teid),
                    ohc_addr: Some(gnb_addr.ip),
                    bar_id: None,
                },
            ]);
        }
        self.sessions.add_session(session);
    }

    /// Moves a session's downlink tunnel after a PFCP modification (see
    /// `retargeted`); the session is taken out and put back under its keys.
    /// Nothing happens when no session has the SEID.
    pub fn update_session_from_pfcp(&mut self, upf_seid: u64, dl_teid: Option<u32>, gnb_addr: Option<PeerAddr>)
        ensures
            tunnel_moved(old(self).sessions, final(self).sessions, upf_seid, dl_teid, gnb_addr),
            final(self).stats == old(self).stats,
            final(self).path_table == old(self).path_table,
    {
        let ghost before = self.sessions;
        match self.sessions.detach_session(upf_seid) {
            None => {
                assert(self.sessions.sessions() =~= before.sessions());
            },
            Some(s) => {
                let ghost s0 = s;
                let mut s = s;
                if let Some(t) = dl_teid {
                    s.dl_teid = t;
                }
                if let Some(a) = gnb_addr {
                    s.gnb_addr = a;
                }
                retarget_fars(&mut s.fars, dl_teid, gnb_addr);
                let ghost s1 = s;
                assert(retargeted(s0, s1, dl_teid, gnb_addr));
                self.sessions.add_session(s);
                assert(self.sessions.sessions()[s0.upf_seid] == s1);
                assert(self.sessions.sessions() =~= before.sessions().remove(upf_seid).insert(s0.upf_seid, s1));
                let ghost mid_ip = match s0.ue_ipv4 {
                    Some(a) => before.ip_index().remove(ip_key(a)),
                    None => before.ip_index(),
                };
            },
        }
    }
}

} // verus!
