//! A PFCP session as the UPF data plane holds it: its tunnel endpoints, its
//! rules, its counters and its downlink buffer, with the per-packet
//! decisions taken on it (TS 29.244 5.2).

use vstd::prelude::*;
use vstd::std_specs::hash::spec_hash_map_iter;
use vstd::std_specs::iter::IteratorSpec;
use std::collections::HashMap;
use std::collections::VecDeque;
use crate::dp_rules::{
    PacketTuple, SdfRule, DataPlanePdr, DataPlaneFar, DataPlaneBar, DataPlaneQer, FarDecision, tuple_matches,
    decision_of, far_decision, DEFAULT_DL_BUFFER_PACKETS,
};
use crate::dp_urr::{DataPlaneUrr, record_fits, refuses, recorded};

verus! {

broadcast use vstd::std_specs::hash::group_hash_axioms;

/// An IPv4 transport address: address and UDP port.
#[derive(Debug, Clone, Copy, PartialEq, Eq)]
pub struct PeerAddr {
    pub ip: [u8; 4],
    pub port: u16,
}

impl PeerAddr {
    /// Whether two transport addresses are the same.
    pub fn same(&self, other: &PeerAddr) -> (r: bool)
        ensures
            r == (*self == *other),
    {
        let r = self.ip[0] == other.ip[0] && self.ip[1] == other.ip[1] && self.ip[2] == other.ip[2] && self.ip[3]
            == other.ip[3] && self.port == other.port;
        if r {
            assert(self.ip =~= other.ip);
        }
        r
    }
}

/// A session of the data plane.
#[derive(Debug)]
pub struct DataPlaneSession {
    /// UPF SEID: the session's identifier here
    pub upf_seid: u64,
    /// SMF SEID: the peer's identifier of the session
    pub smf_seid: u64,
    pub ue_ipv4: Option<[u8; 4]>,
    /// The TEID this UPF receives uplink traffic on
    pub ul_teid: u32,
    /// The TEID downlink traffic is sent with
    pub dl_teid: u32,
    /// The gNB address downlink traffic is sent to
    pub gnb_addr: PeerAddr,
    pub pdu_session_id: Option<u8>,
    pub qfi: Option<u8>,
    pub ul_packets: u64,
    pub dl_packets: u64,
    pub ul_bytes: u64,
    pub dl_bytes: u64,
    /// PDRs in matching order (by precedence)
    pub pdrs: Vec<DataPlanePdr>,
    pub fars: HashMap<u32, DataPlaneFar>,
    pub qers: HashMap<u32, DataPlaneQer>,
    pub urrs: HashMap<u32, DataPlaneUrr>,
    pub bars: HashMap<u8, DataPlaneBar>,
    /// Downlink packets held under a BUFF FAR, oldest first
    pub dl_buffer: VecDeque<Vec<u8>>,
    /// A Downlink Data Report was raised for the current buffering episode
    pub ddn_sent: bool,
}

/// What a PDR match gives: FAR ID, QER ID, URR IDs, outer header removal.
pub type PdrMatch = (Option<u32>, Option<u32>, Vec<u32>, Option<u8>);

/// Whether a PDR applies to a packet: same source interface; same QFI when
/// both the PDR and the packet have one; and, when the PDR has an SDF
/// filter, a 5-tuple that satisfies it (without a 5-tuple the PDR does not
/// apply).
pub open spec fn pdr_applies(p: DataPlanePdr, source_interface: u8, packet: Option<PacketTuple>, pkt_qfi: Option<u8>) -> bool {
    &&& p.source_interface == source_interface
    &&& match (p.qfi, pkt_qfi) {
        (Some(q), Some(k)) => q == k,
        _ => true,
    }
    &&& match p.sdf_rule {
        Some(r) => match packet {
            Some(t) => tuple_matches(t, r),
            None => false,
        },
        None => true,
    }
}

/// The index of the first PDR that applies, if any.
pub open spec fn first_pdr(
    pdrs: Seq<DataPlanePdr>,
    source_interface: u8,
    packet: Option<PacketTuple>,
    pkt_qfi: Option<u8>,
) -> Option<int>
    decreases pdrs.len(),
{
    if pdrs.len() == 0 {
        None
    } else if pdr_applies(pdrs[0], source_interface, packet, pkt_qfi) {
        Some(0)
    } else {
        match first_pdr(pdrs.drop_first(), source_interface, packet, pkt_qfi) {
            Some(i) => Some(i + 1),
            None => None,
        }
    }
}

/// The packet buffer capacity a BAR gives: its suggested count when the
/// FAR names a provisioned BAR that has one, else the default.
pub open spec fn buffer_capacity(bars: Map<u8, DataPlaneBar>, bar_id: Option<u8>) -> int {
    match bar_id {
        Some(id) if bars.contains_key(id) && bars[id].suggested_buffering_packets_count is Some => bars[id].suggested_buffering_packets_count.unwrap() as int,
        _ => DEFAULT_DL_BUFFER_PACKETS as int,
    }
}

/// The state of a QER's gate for a direction.
#[derive(Debug, Clone, Copy, PartialEq, Eq)]
pub enum QerGate {
    /// No such QER: traffic passes
    NoQer,
    /// Closed: traffic is dropped
    Closed,
    /// Open: traffic passes within the QER's bit rates
    Open,
}

impl DataPlaneSession {
    /// A session with no rule, no traffic and an empty buffer.
    pub fn new_empty(
        upf_seid: u64,
        smf_seid: u64,
        ue_ipv4: Option<[u8; 4]>,
        ul_teid: u32,
        dl_teid: u32,
        gnb_addr: PeerAddr,
        pdu_session_id: Option<u8>,
        qfi: Option<u8>,
    ) -> (s: Self)
        ensures
            s.upf_seid == upf_seid && s.smf_seid == smf_seid && s.ue_ipv4 == ue_ipv4,
            s.ul_teid == ul_teid && s.dl_teid == dl_teid && s.gnb_addr == gnb_addr,
            s.pdu_session_id == pdu_session_id && s.qfi == qfi,
            s.ul_packets == 0 && s.dl_packets == 0 && s.ul_bytes == 0 && s.dl_bytes == 0,
            s.pdrs@.len() == 0,
            s.fars@ == Map::<u32, DataPlaneFar>::empty(),
            s.qers@ == Map::<u32, DataPlaneQer>::empty(),
            s.urrs@ == Map::<u32, DataPlaneUrr>::empty(),
            s.bars@ == Map::<u8, DataPlaneBar>::empty(),
            s.dl_buffer@.len() == 0,
            !s.ddn_sent,
    {
        DataPlaneSession {
            upf_seid,
            smf_seid,
            ue_ipv4,
            ul_teid,
            dl_teid,
            gnb_addr,
            pdu_session_id,
            qfi,
            ul_packets: 0,
            dl_packets: 0,
            ul_bytes: 0,
            dl_bytes: 0,
            pdrs: Vec::new(),
            fars: HashMap::new(),
            qers: HashMap::new(),
            urrs: HashMap::new(),
            bars: HashMap::new(),
            dl_buffer: VecDeque::new(),
            ddn_sent: false,
        }
    }

    /// The downlink buffer capacity under a FAR that names `bar_id`.
    pub fn dl_buffer_capacity(&self, bar_id: Option<u8>) -> (n: usize)
        ensures
            n == buffer_capacity(self.bars@, bar_id),
    {
        if let Some(id) = bar_id {
            if let Some(bar) = self.bars.get(&id) {
                if let Some(count) = bar.suggested_buffering_packets_count {
                    return count as usize;
                }
            }
        }
        DEFAULT_DL_BUFFER_PACKETS
    }

    /// Buffers a downlink packet under a BUFF FAR. Returns whether it was
    /// buffered (a full buffer discards it) and whether it starts a
    /// buffering episode, for which a Downlink Data Report is due.
    pub fn buffer_dl_packet(&mut self, pkt: Vec<u8>, bar_id: Option<u8>) -> (r: (bool, bool))
        ensures
            old(self).dl_buffer@.len() >= buffer_capacity(old(self).bars@, bar_id) ==> {
                &&& r == (false, false)
                &&& final(self).dl_buffer@ == old(self).dl_buffer@
                &&& final(self).ddn_sent == old(self).ddn_sent
            },
            old(self).dl_buffer@.len() < buffer_capacity(old(self).bars@, bar_id) ==> {
                &&& r == (true, !old(self).ddn_sent)
                &&& final(self).dl_buffer@ == old(self).dl_buffer@.push(pkt)
                &&& final(self).ddn_sent
            },
            same_but_buffer(*old(self), *final(self)),
    {
        let cap = self.dl_buffer_capacity(bar_id);
        if self.dl_buffer.len() >= cap {
            return (false, false);
        }
        self.dl_buffer.push_back(pkt);
        let first = !self.ddn_sent;
        self.ddn_sent = true;
        (true, first)
    }

    /// Takes every buffered downlink packet, oldest first, and ends the
    /// buffering episode.
    pub fn drain_dl_buffer(&mut self) -> (pkts: Vec<Vec<u8>>)
        ensures
            pkts@ == old(self).dl_buffer@,
            final(self).dl_buffer@.len() == 0,
            !final(self).ddn_sent,
            same_but_buffer(*old(self), *final(self)),
    {
        let ghost all = self.dl_buffer@;
        let mut pkts: Vec<Vec<u8>> = Vec::new();
        while self.dl_buffer.len() > 0
            invariant
                pkts@ + self.dl_buffer@ == all,
                same_but_buffer(*old(self), *self),
            decreases self.dl_buffer@.len(),
        {
            let ghost before = self.dl_buffer@;
            match self.dl_buffer.pop_front() {
                Some(p) => {
                    let ghost pk = pkts@;
                    pkts.push(p);
                    assert(pkts@ + self.dl_buffer@ =~= pk + before);
                },
                None => {},
            }
        }
        assert(pkts@ =~= all);
        self.ddn_sent = false;
        pkts
    }

    /// The first PDR that applies to a packet without a 5-tuple or QFI.
    pub fn match_pdr(&self, source_interface: u8) -> (r: Option<PdrMatch>)
        ensures
            match first_pdr(self.pdrs@, source_interface, None, None) {
                Some(i) => r matches Some(m) && m.0 == self.pdrs@[i].far_id && m.1 == self.pdrs@[i].qer_id
                    && m.2@ == self.pdrs@[i].urr_ids@ && m.3 == self.pdrs@[i].outer_header_removal,
                None => r is None,
            },
    {
        self.match_pdr_with_packet(source_interface, None, None)
    }

    /// The first PDR, in order, that applies to a packet (see
    /// `pdr_applies`); its FAR ID, QER ID, URR IDs and outer header removal.
    pub fn match_pdr_with_packet(&self, source_interface: u8, packet: Option<&PacketTuple>, pkt_qfi: Option<u8>) -> (r:
        Option<PdrMatch>)
        ensures
            match first_pdr(
                self.pdrs@,
                source_interface,
                match packet {
                    Some(t) => Some(*t),
                    None => None,
                },
                pkt_qfi,
            ) {
                Some(i) => r matches Some(m) && m.0 == self.pdrs@[i].far_id && m.1 == self.pdrs@[i].qer_id
                    && m.2@ == self.pdrs@[i].urr_ids@ && m.3 == self.pdrs@[i].outer_header_removal,
                None => r is None,
            },
    {
        let ghost pk = match packet {
            Some(t) => Some(*t),
            None => None,
        };
        let n = self.pdrs.len();
        let mut i: usize = 0;
        while i < n
            invariant
                n == self.pdrs@.len(),
                i <= n,
                pk == (match packet {
                    Some(t) => Some(*t),
                    None => None,
                }),
                forall|j: int| 0 <= j < i ==> !pdr_applies(#[trigger] self.pdrs@[j], source_interface, pk, pkt_qfi),
            decreases n - i,
        {
            let pdr = &self.pdrs[i];
            let qfi_ok = match (pdr.qfi, pkt_qfi) {
                (Some(pdr_qfi), Some(qfi)) => pdr_qfi == qfi,
                _ => true,
            };
            let sdf_ok = match &pdr.sdf_rule {
                Some(rule) => match packet {
                    Some(pkt) => pkt.matches_rule(rule),
                    None => false,
                },
                None => true,
            };
            let applies = pdr.source_interface == source_interface && qfi_ok && sdf_ok;
            assert(applies == pdr_applies(self.pdrs@[i as int], source_interface, pk, pkt_qfi));
            if applies {
                proof {
                    lemma_first_pdr_at(self.pdrs@, source_interface, pk, pkt_qfi, i as int);
                }
                let mut urr_ids: Vec<u32> = Vec::new();
                urr_ids.extend_from_slice(pdr.urr_ids.as_slice());
                return Some((pdr.far_id, pdr.qer_id, urr_ids, pdr.outer_header_removal));
            }
            i = i + 1;
        }
        proof {
            lemma_first_pdr_none(self.pdrs@, source_interface, pk, pkt_qfi);
        }
        None
    }

    /// The decision of a FAR; an unknown FAR drops.
    pub fn apply_far(&self, far_id: u32) -> (d: FarDecision)
        ensures
            d == (if self.fars@.contains_key(far_id) {
                decision_of(self.fars@[far_id])
            } else {
                FarDecision::Drop
            }),
    {
        match self.fars.get(&far_id) {
            Some(far) => far_decision(far),
            None => FarDecision::Drop,
        }
    }

    /// What a QER lets through in a direction.
    pub fn check_qer_gate(&self, qer_id: u32, is_uplink: bool) -> (g: QerGate)
        ensures
            g == (if !self.qers@.contains_key(qer_id) {
                QerGate::NoQer
            } else if (if is_uplink { self.qers@[qer_id].ul_gate_open } else { self.qers@[qer_id].dl_gate_open }) {
                QerGate::Open
            } else {
                QerGate::Closed
            }),
    {
        match self.qers.get(&qer_id) {
            Some(qer) => {
                let open = if is_uplink {
                    qer.ul_gate_open
                } else {
                    qer.dl_gate_open
                };
                if open {
                    QerGate::Open
                } else {
                    QerGate::Closed
                }
            },
            None => QerGate::NoQer,
        }
    }
}

/// The URRs once a packet is counted by each of the listed URRs, in turn;
/// an ID without a URR is passed over.
pub open spec fn urrs_recorded(
    m: Map<u32, DataPlaneUrr>,
    ids: Seq<u32>,
    bytes: u64,
    is_uplink: bool,
    now: u64,
) -> Map<u32, DataPlaneUrr>
    decreases ids.len(),
{
    if ids.len() == 0 {
        m
    } else {
        let before = urrs_recorded(m, ids.drop_last(), bytes, is_uplink, now);
        let id = ids.last();
        if before.contains_key(id) {
            before.insert(id, recorded(before[id], bytes, is_uplink, now))
        } else {
            before
        }
    }
}

/// Whether one of the listed URRs refuses the packet as it is counted.
pub open spec fn urrs_refuse(m: Map<u32, DataPlaneUrr>, ids: Seq<u32>, bytes: u64, is_uplink: bool, now: u64) -> bool
    decreases ids.len(),
{
    if ids.len() == 0 {
        false
    } else {
        let before = urrs_recorded(m, ids.drop_last(), bytes, is_uplink, now);
        let id = ids.last();
        urrs_refuse(m, ids.drop_last(), bytes, is_uplink, now) || (before.contains_key(id) && refuses(
            before[id],
            bytes,
            is_uplink,
            now,
        ))
    }
}

/// Two sessions alike in everything but their downlink buffer.
pub open spec fn same_but_buffer(a: DataPlaneSession, b: DataPlaneSession) -> bool {
    &&& b.upf_seid == a.upf_seid && b.smf_seid == a.smf_seid && b.ue_ipv4 == a.ue_ipv4
    &&& b.ul_teid == a.ul_teid && b.dl_teid == a.dl_teid && b.gnb_addr == a.gnb_addr
    &&& b.pdu_session_id == a.pdu_session_id && b.qfi == a.qfi
    &&& b.ul_packets == a.ul_packets && b.dl_packets == a.dl_packets
    &&& b.ul_bytes == a.ul_bytes && b.dl_bytes == a.dl_bytes
    &&& b.pdrs == a.pdrs && b.fars@ == a.fars@ && b.qers@ == a.qers@ && b.urrs@ == a.urrs@ && b.bars@ == a.bars@
}

/// Two sessions alike in everything but their URRs.
pub open spec fn same_but_urrs(a: DataPlaneSession, b: DataPlaneSession) -> bool {
    &&& b.upf_seid == a.upf_seid && b.smf_seid == a.smf_seid && b.ue_ipv4 == a.ue_ipv4
    &&& b.ul_teid == a.ul_teid && b.dl_teid == a.dl_teid && b.gnb_addr == a.gnb_addr
    &&& b.pdu_session_id == a.pdu_session_id && b.qfi == a.qfi
    &&& b.ul_packets == a.ul_packets && b.dl_packets == a.dl_packets
    &&& b.ul_bytes == a.ul_bytes && b.dl_bytes == a.dl_bytes
    &&& b.pdrs == a.pdrs && b.fars@ == a.fars@ && b.qers@ == a.qers@ && b.bars@ == a.bars@
    &&& b.dl_buffer@ == a.dl_buffer@ && b.ddn_sent == a.ddn_sent
}

/// Whether every URR's counters can take `n` more packets of `bytes`
/// octets.
pub open spec fn urrs_fit(m: Map<u32, DataPlaneUrr>, bytes: u64, n: int) -> bool {
    forall|id: u32|
        #![trigger m[id]]
        m.contains_key(id) ==> {
            &&& m[id].acc_total_bytes + n * bytes <= 0xFFFF_FFFF_FFFF_FFFF
            &&& m[id].acc_ul_bytes + n * bytes <= 0xFFFF_FFFF_FFFF_FFFF
            &&& m[id].acc_dl_bytes + n * bytes <= 0xFFFF_FFFF_FFFF_FFFF
        }
}

impl DataPlaneSession {
    /// Counts a packet in each listed URR, in order. Returns whether one of
    /// them refuses it (a quota is used up).
    pub fn record_urrs(&mut self, urr_ids: &[u32], bytes: u64, is_uplink: bool, now_secs: u64) -> (any: bool)
        requires
            urrs_fit(old(self).urrs@, bytes, urr_ids@.len() as int),
        ensures
            any == urrs_refuse(old(self).urrs@, urr_ids@, bytes, is_uplink, now_secs),
            final(self).urrs@ == urrs_recorded(old(self).urrs@, urr_ids@, bytes, is_uplink, now_secs),
            same_but_urrs(*old(self), *final(self)),
    {
        let ghost m0 = self.urrs@;
        let n = urr_ids.len();
        let mut any = false;
        let mut i: usize = 0;
        while i < n
            invariant
                n == urr_ids@.len(),
                i <= n,
                urrs_fit(m0, bytes, n as int),
                self.urrs@ == urrs_recorded(m0, urr_ids@.take(i as int), bytes, is_uplink, now_secs),
                any == urrs_refuse(m0, urr_ids@.take(i as int), bytes, is_uplink, now_secs),
                forall|id: u32|
                    #![trigger self.urrs@[id]]
                    self.urrs@.contains_key(id) ==> m0.contains_key(id) && {
                        &&& self.urrs@[id].acc_total_bytes <= m0[id].acc_total_bytes + i * bytes
                        &&& self.urrs@[id].acc_ul_bytes <= m0[id].acc_ul_bytes + i * bytes
                        &&& self.urrs@[id].acc_dl_bytes <= m0[id].acc_dl_bytes + i * bytes
                    },
                same_but_urrs(*old(self), *self),
            decreases n - i,
        {
            let id = urr_ids[i];
            proof {
                assert(urr_ids@.take(i + 1).drop_last() =~= urr_ids@.take(i as int));
                assert(urr_ids@.take(i + 1).last() == id);
                assert((i + 1) * bytes == i * bytes + bytes) by (nonlinear_arith);
                assert(i * bytes + bytes <= n * bytes) by (nonlinear_arith)
                    requires
                        i < n,
                ;
            }
            match self.urrs.get(&id) {
                Some(u) => {
                    let mut c = *u;
                    assert(m0.contains_key(id));
                    let refused = c.record(bytes, is_uplink, now_secs);
                    self.urrs.insert(id, c);
                    if refused {
                        any = true;
                    }
                },
                None => {},
            }
            i = i + 1;
        }
        assert(urr_ids@.take(n as int) =~= urr_ids@);
        any
    }
}

/// The IDs, in order, of the entries whose threshold was reached.
pub open spec fn flagged_ids(v: Seq<(&u32, &DataPlaneUrr)>) -> Seq<u32>
    decreases v.len(),
{
    if v.len() == 0 {
        Seq::empty()
    } else {
        flagged_ids(v.drop_last()) + if v.last().1.threshold_exceeded {
            seq![*v.last().0]
        } else {
            Seq::empty()
        }
    }
}

/// An ID is listed exactly when one of the entries has it and its
/// threshold was reached.
proof fn lemma_flagged_ids_contains(v: Seq<(&u32, &DataPlaneUrr)>, id: u32)
    ensures
        flagged_ids(v).contains(id) <==> exists|j: int| 0 <= j < v.len() && *v[j].0 == id && v[j].1.threshold_exceeded,
    decreases v.len(),
{
    if v.len() > 0 {
        lemma_flagged_ids_contains(v.drop_last(), id);
        let rest = flagged_ids(v.drop_last());
        let tail = if v.last().1.threshold_exceeded {
            seq![*v.last().0]
        } else {
            Seq::<u32>::empty()
        };
        assert(flagged_ids(v) == rest + tail);
        if flagged_ids(v).contains(id) {
            let k = choose|k: int| 0 <= k < flagged_ids(v).len() && flagged_ids(v)[k] == id;
            if k < rest.len() {
                assert(rest[k] == id);
                let j = choose|j: int| 0 <= j < v.drop_last().len() && *v.drop_last()[j].0 == id && v.drop_last()[j].1.threshold_exceeded;
                assert(v[j] == v.drop_last()[j]);
            } else {
                assert(v[v.len() - 1] == v.last());
            }
        }
        if exists|j: int| 0 <= j < v.len() && *v[j].0 == id && v[j].1.threshold_exceeded {
            let j = choose|j: int| 0 <= j < v.len() && *v[j].0 == id && v[j].1.threshold_exceeded;
            if j < v.len() - 1 {
                assert(v.drop_last()[j] == v[j]);
                assert(rest.contains(id));
                let k = choose|k: int| 0 <= k < rest.len() && rest[k] == id;
                assert(flagged_ids(v)[k] == id);
            } else {
                assert(flagged_ids(v)[rest.len() as int] == id);
            }
        }
    }
}

impl DataPlaneSession {
    /// The IDs of the URRs whose threshold was reached (a report is due),
    /// in the map's order.
    pub fn has_urr_threshold_exceeded(&self) -> (ids: Vec<u32>)
        ensures
            forall|id: u32| ids@.contains(id) <==> (self.urrs@.contains_key(id) && self.urrs@[id].threshold_exceeded),
    {
        let mut out: Vec<u32> = Vec::new();
        let ghost v = spec_hash_map_iter(&self.urrs).remaining();
        for entry in it: self.urrs.iter()
            invariant
                it.seq() == v,
                out@ == flagged_ids(v.take(it.index())),
        {
            proof {
                assert(v.take(it.index() + 1).drop_last() =~= v.take(it.index()));
            }
            let (id, urr) = entry;
            if urr.threshold_exceeded {
                out.push(*id);
            }
        }
        proof {
            assert(v.take(v.len() as int) =~= v);
            assert(out@ == flagged_ids(v));
            assert forall|id: u32| out@.contains(id) <==> (self.urrs@.contains_key(id) && self.urrs@[id].threshold_exceeded) by {
                lemma_flagged_ids_contains(v, id);
                if self.urrs@.contains_key(id) {
                    assert(v.contains((&id, &self.urrs@[id])));
                }
            }
        }
        out
    }
}

/// Where the first applying PDR is found by a front-to-back scan.
proof fn lemma_first_pdr_at(
    pdrs: Seq<DataPlanePdr>,
    source_interface: u8,
    packet: Option<PacketTuple>,
    pkt_qfi: Option<u8>,
    i: int,
)
    requires
        0 <= i < pdrs.len(),
        pdr_applies(pdrs[i], source_interface, packet, pkt_qfi),
        forall|j: int| 0 <= j < i ==> !pdr_applies(#[trigger] pdrs[j], source_interface, packet, pkt_qfi),
    ensures
        first_pdr(pdrs, source_interface, packet, pkt_qfi) == Some(i),
    decreases i,
{
    if i > 0 {
        let rest = pdrs.drop_first();
        assert forall|j: int| 0 <= j < i - 1 implies !pdr_applies(
            #[trigger] rest[j],
            source_interface,
            packet,
            pkt_qfi,
        ) by {
            assert(rest[j] == pdrs[j + 1]);
        }
        lemma_first_pdr_at(rest, source_interface, packet, pkt_qfi, i - 1);
    }
}

/// No PDR is found when none applies.
proof fn lemma_first_pdr_none(pdrs: Seq<DataPlanePdr>, source_interface: u8, packet: Option<PacketTuple>, pkt_qfi: Option<u8>)
    requires
        forall|j: int| 0 <= j < pdrs.len() ==> !pdr_applies(#[trigger] pdrs[j], source_interface, packet, pkt_qfi),
    ensures
        first_pdr(pdrs, source_interface, packet, pkt_qfi) is None,
    decreases pdrs.len(),
{
    if pdrs.len() > 0 {
        let rest = pdrs.drop_first();
        assert forall|j: int| 0 <= j < rest.len() implies !pdr_applies(
            #[trigger] rest[j],
            source_interface,
            packet,
            pkt_qfi,
        ) by {
            assert(rest[j] == pdrs[j + 1]);
        }
        lemma_first_pdr_none(rest, source_interface, packet, pkt_qfi);
    }
}

} // verus!
