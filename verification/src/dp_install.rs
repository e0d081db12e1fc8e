//! Installing the rules a PFCP session carries into the data plane: the
//! PDRs, FARs, QERs, URRs and BARs of an establishment or modification,
//! converted from their parsed IEs, and the session events that the N4
//! side raises toward the data plane.

use vstd::prelude::*;
use std::collections::HashMap;
use crate::dp_rules::{
    DataPlanePdr, DataPlaneFar, DataPlaneQer, DataPlaneBar, SdfRule, SRC_INTF_CORE, FAR_ACTION_FORW,
};
use crate::dp_urr::DataPlaneUrr;
use crate::ip_qos::dscp_of_qfi;
use crate::upf_rules::{ParsedCreatePdr, ParsedCreateFar, ParsedCreateQer, ParsedCreateUrr, ParsedCreateBar};
use crate::dp_session::{DataPlaneSession, PeerAddr, same_but_buffer};
use crate::dp_manager::{SessionManager, ip_key, unlinked_ul, unlinked_ip};
use crate::dp_plane::{DataPlane, default_pdrs, default_fars, tunnel_moved};
use crate::gtpu::{build_gtpu_end_marker, end_marker, GTPU_PORT};

verus! {

broadcast use vstd::std_specs::hash::group_hash_axioms;

/// The data plane PDR of a parsed Create PDR, with the SDF filter its flow
/// description compiles to (none matches every packet).
pub open spec fn pdr_of(p: ParsedCreatePdr, sdf: Option<SdfRule>, d: DataPlanePdr) -> bool {
    &&& d.pdr_id == p.pdr_id
    &&& d.precedence == p.precedence
    &&& d.source_interface == p.pdi.source_interface
    &&& d.far_id == p.far_id
    &&& d.qer_id == p.qer_id
    &&& d.urr_ids@ == p.urr_ids@
    &&& d.outer_header_removal == p.outer_header_removal
    &&& d.sdf_rule == sdf
    &&& d.qfi == p.pdi.qfi
}

/// The data plane FAR of a parsed Create FAR: the outer header its
/// Forwarding Parameters create, toward their destination interface
/// (Core without them).
pub open spec fn far_of(f: ParsedCreateFar) -> DataPlaneFar {
    DataPlaneFar {
        far_id: f.far_id,
        apply_action: f.apply_action,
        destination_interface: match f.forwarding_parameters {
            Some(fp) => fp.destination_interface,
            None => SRC_INTF_CORE,
        },
        ohc_teid: match f.forwarding_parameters {
            Some(fp) => match fp.outer_header_creation {
                Some(o) => Some(o.teid),
                None => None,
            },
            None => None,
        },
        ohc_addr: match f.forwarding_parameters {
            Some(fp) => match fp.outer_header_creation {
                Some(o) => o.ipv4,
                None => None,
            },
            None => None,
        },
        bar_id: f.bar_id,
    }
}

/// The data plane BAR of a parsed Create BAR.
pub open spec fn bar_of(b: ParsedCreateBar) -> DataPlaneBar {
    DataPlaneBar {
        bar_id: b.bar_id,
        suggested_buffering_packets_count: b.suggested_buffering_packets_count,
        ddn_delay: b.ddn_delay,
    }
}

/// The data plane QER of a parsed Create QER: gates open when its Gate
/// Status says OPEN (0), its bit rates, and, with a QFI, the DSCP and XR
/// flag the QFI and GBR give (see `DataPlaneQer::set_qfi`).
pub open spec fn qer_of(q: ParsedCreateQer) -> DataPlaneQer {
    let base = DataPlaneQer {
        qer_id: q.qer_id,
        ul_gate_open: q.ul_gate == 0,
        dl_gate_open: q.dl_gate == 0,
        ul_mbr: q.ul_mbr,
        dl_mbr: q.dl_mbr,
        ul_gbr: q.ul_gbr,
        dl_gbr: q.dl_gbr,
        qfi: None,
        dscp: 0,
        is_xr: false,
    };
    match q.qfi {
        Some(x) => {
            let xr = 82 <= x <= 85 || q.ul_gbr > 0 || q.dl_gbr > 0;
            DataPlaneQer {
                qfi: Some(x),
                is_xr: xr,
                dscp: if xr && dscp_of_qfi(x) == 0 {
                    46
                } else {
                    dscp_of_qfi(x)
                },
                ..base
            }
        },
        None => base,
    }
}

/// The data plane URR of a parsed Create URR installed at `now`: its
/// limits, the PERIO trigger and measurement period, zeroed counters, the
/// last report taken to be now.
pub open spec fn urr_of(u: ParsedCreateUrr, now: u64) -> DataPlaneUrr {
    DataPlaneUrr {
        urr_id: u.urr_id,
        volume_threshold_total: u.volume_threshold_total,
        volume_threshold_ul: u.volume_threshold_ul,
        volume_threshold_dl: u.volume_threshold_dl,
        volume_quota_total: u.volume_quota_total,
        volume_quota_ul: u.volume_quota_ul,
        volume_quota_dl: u.volume_quota_dl,
        time_threshold_secs: u.time_threshold_secs,
        time_quota_secs: u.time_quota_secs,
        trigger_periodic: u.trigger_periodic,
        measurement_period_secs: u.measurement_period_secs,
        acc_total_bytes: 0,
        acc_ul_bytes: 0,
        acc_dl_bytes: 0,
        acc_total_pkts: 0,
        acc_ul_pkts: 0,
        acc_dl_pkts: 0,
        first_pkt_time: None,
        last_report_time: Some(now),
        threshold_exceeded: false,
        quota_exhausted: false,
        ur_seqn: 0,
    }
}

/// Converts a parsed Create FAR (see `far_of`).
pub fn far_from(f: &ParsedCreateFar) -> (d: DataPlaneFar)
    ensures
        d == far_of(*f),
{
    let (dest, ohc_teid, ohc_addr) = match &f.forwarding_parameters {
        Some(fp) => match &fp.outer_header_creation {
            Some(o) => (fp.destination_interface, Some(o.teid), o.ipv4),
            None => (fp.destination_interface, None, None),
        },
        None => (SRC_INTF_CORE, None, None),
    };
    DataPlaneFar { far_id: f.far_id, apply_action: f.apply_action, destination_interface: dest, ohc_teid, ohc_addr, bar_id: f.bar_id }
}

/// Converts a parsed Create BAR (see `bar_of`).
pub fn bar_from(b: &ParsedCreateBar) -> (d: DataPlaneBar)
    ensures
        d == bar_of(*b),
{
    DataPlaneBar {
        bar_id: b.bar_id,
        suggested_buffering_packets_count: b.suggested_buffering_packets_count,
        ddn_delay: b.ddn_delay,
    }
}

/// Converts a parsed Create QER (see `qer_of`).
pub fn qer_from(q: &ParsedCreateQer) -> (d: DataPlaneQer)
    ensures
        d == qer_of(*q),
{
    let mut qer = DataPlaneQer::new(q.qer_id);
    qer.ul_gate_open = q.ul_gate == 0;
    qer.dl_gate_open = q.dl_gate == 0;
    qer.set_mbr(q.ul_mbr, q.dl_mbr);
    qer.set_gbr(q.ul_gbr, q.dl_gbr);
    if let Some(x) = q.qfi {
        qer.set_qfi(x);
    }
    qer
}

/// Converts a parsed Create URR installed at `now_secs` (see `urr_of`).
pub fn urr_from(u: &ParsedCreateUrr, now_secs: u64) -> (d: DataPlaneUrr)
    ensures
        d == urr_of(*u, now_secs),
{
    let mut urr = DataPlaneUrr::new(u.urr_id, now_secs);
    urr.volume_threshold_total = u.volume_threshold_total;
    urr.volume_threshold_ul = u.volume_threshold_ul;
    urr.volume_threshold_dl = u.volume_threshold_dl;
    urr.volume_quota_total = u.volume_quota_total;
    urr.volume_quota_ul = u.volume_quota_ul;
    urr.volume_quota_dl = u.volume_quota_dl;
    urr.time_threshold_secs = u.time_threshold_secs;
    urr.time_quota_secs = u.time_quota_secs;
    urr.trigger_periodic = u.trigger_periodic;
    urr.measurement_period_secs = u.measurement_period_secs;
    urr
}

/// Converts a parsed Create PDR with its compiled SDF filter (see
/// `pdr_of`).
pub fn pdr_from(p: &ParsedCreatePdr, sdf: Option<SdfRule>) -> (d: DataPlanePdr)
    ensures
        pdr_of(*p, sdf, d),
{
    let mut urr_ids: Vec<u32> = Vec::new();
    urr_ids.extend_from_slice(p.urr_ids.as_slice());
    assert(urr_ids@ =~= p.urr_ids@);
    DataPlanePdr {
        pdr_id: p.pdr_id,
        precedence: p.precedence,
        source_interface: p.pdi.source_interface,
        far_id: p.far_id,
        qer_id: p.qer_id,
        urr_ids,
        outer_header_removal: p.outer_header_removal,
        sdf_rule: sdf,
        qfi: p.pdi.qfi,
    }
}

/// Where a rule of precedence `prec` goes among rules in matching order:
/// after every rule before the first of higher precedence value.
pub open spec fn insert_pos(s: Seq<DataPlanePdr>, prec: u32) -> int
    decreases s.len(),
{
    if s.len() == 0 {
        0
    } else if s[0].precedence > prec {
        0
    } else {
        1 + insert_pos(s.drop_first(), prec)
    }
}

/// Rules put in matching order by precedence, one after the other, each
/// after the rules of equal precedence already placed (a stable sort).
pub open spec fn by_precedence(s: Seq<DataPlanePdr>) -> Seq<DataPlanePdr>
    decreases s.len(),
{
    if s.len() == 0 {
        s
    } else {
        let r = by_precedence(s.drop_last());
        r.insert(insert_pos(r, s.last().precedence), s.last())
    }
}

/// Whether rules are in nondecreasing order of precedence value.
pub open spec fn precedence_sorted(s: Seq<DataPlanePdr>) -> bool {
    forall|i: int, j: int| 0 <= i < j < s.len() ==> s[i].precedence <= s[j].precedence
}

/// The insertion point is within the rules, after those of lower or equal
/// precedence and before the rest, when they are sorted.
proof fn lemma_insert_pos(s: Seq<DataPlanePdr>, prec: u32)
    requires
        precedence_sorted(s),
    ensures
        0 <= insert_pos(s, prec) <= s.len(),
        forall|i: int| 0 <= i < insert_pos(s, prec) ==> s[i].precedence <= prec,
        forall|i: int| insert_pos(s, prec) <= i < s.len() ==> s[i].precedence > prec,
    decreases s.len(),
{
    if s.len() > 0 && s[0].precedence <= prec {
        let t = s.drop_first();
        assert(precedence_sorted(t)) by {
            assert forall|i: int, j: int| 0 <= i < j < t.len() implies t[i].precedence <= t[j].precedence by {
                assert(t[i] == s[i + 1] && t[j] == s[j + 1]);
            }
        }
        lemma_insert_pos(t, prec);
        assert forall|i: int| 0 <= i < insert_pos(s, prec) implies s[i].precedence <= prec by {
            if i > 0 {
                assert(s[i] == t[i - 1]);
            }
        }
        assert forall|i: int| insert_pos(s, prec) <= i < s.len() implies s[i].precedence > prec by {
            assert(s[i] == t[i - 1]);
        }
    }
}

/// Rules put in matching order are sorted by precedence, and as many as
/// were given.
pub proof fn lemma_by_precedence_sorted(s: Seq<DataPlanePdr>)
    ensures
        precedence_sorted(by_precedence(s)),
        by_precedence(s).len() == s.len(),
    decreases s.len(),
{
    if s.len() > 0 {
        let r = by_precedence(s.drop_last());
        lemma_by_precedence_sorted(s.drop_last());
        let x = s.last();
        lemma_insert_pos(r, x.precedence);
        let p = insert_pos(r, x.precedence);
        let out = r.insert(p, x);
        assert forall|i: int, j: int| 0 <= i < j < out.len() implies out[i].precedence <= out[j].precedence by {
            if j < p {
                assert(out[i] == r[i] && out[j] == r[j]);
            } else if j == p {
                assert(out[i] == r[i]);
            } else if i < p {
                assert(out[i] == r[i] && out[j] == r[j - 1]);
            } else if i == p {
                assert(out[j] == r[j - 1]);
            } else {
                assert(out[i] == r[i - 1] && out[j] == r[j - 1]);
            }
        }
    }
}

/// Finds where a rule of precedence `prec` goes (see `insert_pos`).
fn find_insert_pos(s: &Vec<DataPlanePdr>, prec: u32) -> (j: usize)
    ensures
        j == insert_pos(s@, prec),
{
    let n = s.len();
    let mut j: usize = 0;
    assert(s@.subrange(0, n as int) =~= s@);
    while j < n && s[j].precedence <= prec
        invariant
            n == s@.len(),
            j <= n,
            insert_pos(s@, prec) == j + insert_pos(s@.subrange(j as int, n as int), prec),
        decreases n - j,
    {
        proof {
            let t = s@.subrange(j as int, n as int);
            assert(t[0] == s@[j as int]);
            assert(t.drop_first() =~= s@.subrange(j + 1, n as int));
        }
        j = j + 1;
    }
    proof {
        let t = s@.subrange(j as int, n as int);
        if j < n {
            assert(t[0] == s@[j as int]);
        }
    }
    j
}

/// Puts rules in matching order (see `by_precedence`).
pub fn sort_by_precedence(v: Vec<DataPlanePdr>) -> (out: Vec<DataPlanePdr>)
    ensures
        out@ == by_precedence(v@),
{
    let ghost orig = v@;
    let mut rest = v;
    let mut out: Vec<DataPlanePdr> = Vec::new();
    let n = rest.len();
    let mut i: usize = 0;
    assert(orig.subrange(0, n as int) =~= orig);
    while i < n
        invariant
            n == orig.len(),
            i <= n,
            rest@ == orig.subrange(i as int, n as int),
            out@ == by_precedence(orig.take(i as int)),
        decreases n - i,
    {
        let x = rest.remove(0);
        proof {
            assert(x == orig[i as int]);
            assert(rest@ =~= orig.subrange(i + 1, n as int));
            assert(orig.take(i + 1).drop_last() =~= orig.take(i as int));
            assert(orig.take(i + 1).last() == orig[i as int]);
        }
        let pos = find_insert_pos(&out, x.precedence);
        proof {
            lemma_by_precedence_sorted(orig.take(i as int));
            lemma_insert_pos(out@, x.precedence);
        }
        out.insert(pos, x);
        i = i + 1;
    }
    assert(orig.take(n as int) =~= orig);
    out
}

/// The FARs of a map once each listed FAR is put in it, in order (a later
/// one replacing an earlier one with the same ID).
pub open spec fn with_fars(m: Map<u32, DataPlaneFar>, fs: Seq<ParsedCreateFar>) -> Map<u32, DataPlaneFar>
    decreases fs.len(),
{
    if fs.len() == 0 {
        m
    } else {
        with_fars(m, fs.drop_last()).insert(fs.last().far_id, far_of(fs.last()))
    }
}

/// The QERs of a map once each listed QER is put in it, in order.
pub open spec fn with_qers(m: Map<u32, DataPlaneQer>, qs: Seq<ParsedCreateQer>) -> Map<u32, DataPlaneQer>
    decreases qs.len(),
{
    if qs.len() == 0 {
        m
    } else {
        with_qers(m, qs.drop_last()).insert(qs.last().qer_id, qer_of(qs.last()))
    }
}

/// The BARs of a map once each listed BAR is put in it, in order.
pub open spec fn with_bars(m: Map<u8, DataPlaneBar>, bs: Seq<ParsedCreateBar>) -> Map<u8, DataPlaneBar>
    decreases bs.len(),
{
    if bs.len() == 0 {
        m
    } else {
        with_bars(m, bs.drop_last()).insert(bs.last().bar_id, bar_of(bs.last()))
    }
}

/// The URRs of a map once each listed URR, installed at `now`, is put in
/// it, in order.
pub open spec fn with_urrs(m: Map<u32, DataPlaneUrr>, us: Seq<ParsedCreateUrr>, now: u64) -> Map<u32, DataPlaneUrr>
    decreases us.len(),
{
    if us.len() == 0 {
        m
    } else {
        with_urrs(m, us.drop_last(), now).insert(us.last().urr_id, urr_of(us.last(), now))
    }
}

/// Puts each listed FAR into a map, in order (see `with_fars`); returns
/// whether one of them forwards.
pub fn put_fars(m: &mut HashMap<u32, DataPlaneFar>, fs: &Vec<ParsedCreateFar>) -> (forwards: bool)
    ensures
        final(m)@ == with_fars(old(m)@, fs@),
        forwards == exists|i: int| 0 <= i < fs@.len() && #[trigger] fs@[i].apply_action & FAR_ACTION_FORW != 0,
{
    let ghost m0 = m@;
    let mut forwards = false;
    let n = fs.len();
    let mut i: usize = 0;
    while i < n
        invariant
            n == fs@.len(),
            i <= n,
            m@ == with_fars(m0, fs@.take(i as int)),
            forwards == exists|k: int| 0 <= k < i && #[trigger] fs@[k].apply_action & FAR_ACTION_FORW != 0,
        decreases n - i,
    {
        let f = &fs[i];
        proof {
            assert(fs@.take(i + 1).drop_last() =~= fs@.take(i as int));
        }
        m.insert(f.far_id, far_from(f));
        if f.apply_action & FAR_ACTION_FORW != 0 {
            forwards = true;
        }
        i = i + 1;
    }
    assert(fs@.take(n as int) =~= fs@);
    forwards
}

/// Puts each listed QER into a map, in order (see `with_qers`).
pub fn put_qers(m: &mut HashMap<u32, DataPlaneQer>, qs: &Vec<ParsedCreateQer>)
    ensures
        final(m)@ == with_qers(old(m)@, qs@),
{
    let ghost m0 = m@;
    let n = qs.len();
    let mut i: usize = 0;
    while i < n
        invariant
            n == qs@.len(),
            i <= n,
            m@ == with_qers(m0, qs@.take(i as int)),
        decreases n - i,
    {
        let q = &qs[i];
        proof {
            assert(qs@.take(i + 1).drop_last() =~= qs@.take(i as int));
        }
        m.insert(q.qer_id, qer_from(q));
        i = i + 1;
    }
    assert(qs@.take(n as int) =~= qs@);
}

/// Puts each listed BAR into a map, in order (see `with_bars`).
pub fn put_bars(m: &mut HashMap<u8, DataPlaneBar>, bs: &Vec<ParsedCreateBar>)
    ensures
        final(m)@ == with_bars(old(m)@, bs@),
{
    let ghost m0 = m@;
    let n = bs.len();
    let mut i: usize = 0;
    while i < n
        invariant
            n == bs@.len(),
            i <= n,
            m@ == with_bars(m0, bs@.take(i as int)),
        decreases n - i,
    {
        let b = &bs[i];
        proof {
            assert(bs@.take(i + 1).drop_last() =~= bs@.take(i as int));
        }
        m.insert(b.bar_id, bar_from(b));
        i = i + 1;
    }
    assert(bs@.take(n as int) =~= bs@);
}

/// Puts each listed URR, installed at `now_secs`, into a map, in order
/// (see `with_urrs`).
pub fn put_urrs(m: &mut HashMap<u32, DataPlaneUrr>, us: &Vec<ParsedCreateUrr>, now_secs: u64)
    ensures
        final(m)@ == with_urrs(old(m)@, us@, now_secs),
{
    let ghost m0 = m@;
    let n = us.len();
    let mut i: usize = 0;
    while i < n
        invariant
            n == us@.len(),
            i <= n,
            m@ == with_urrs(m0, us@.take(i as int), now_secs),
        decreases n - i,
    {
        let u = &us[i];
        proof {
            assert(us@.take(i + 1).drop_last() =~= us@.take(i as int));
        }
        m.insert(u.urr_id, urr_from(u, now_secs));
        i = i + 1;
    }
    assert(us@.take(n as int) =~= us@);
}

/// The compiled SDF filter given for the `i`-th PDR, if any.
pub open spec fn sdf_at(sdfs: Seq<Option<SdfRule>>, i: int) -> Option<SdfRule> {
    if 0 <= i < sdfs.len() {
        sdfs[i]
    } else {
        None
    }
}

/// Converts parsed Create PDRs, each with its compiled SDF filter, and
/// puts them in matching order (see `by_precedence`).
pub fn pdrs_from(ps: &Vec<ParsedCreatePdr>, sdfs: &Vec<Option<SdfRule>>) -> (out: Vec<DataPlanePdr>)
    ensures
        exists|ds: Seq<DataPlanePdr>|
            #![trigger by_precedence(ds)]
            ds.len() == ps@.len() && (forall|i: int| 0 <= i < ds.len() ==> pdr_of(ps@[i], sdf_at(sdfs@, i), #[trigger] ds[i]))
                && out@ == by_precedence(ds),
{
    let mut ds: Vec<DataPlanePdr> = Vec::new();
    let n = ps.len();
    let mut i: usize = 0;
    while i < n
        invariant
            n == ps@.len(),
            i <= n,
            ds@.len() == i,
            forall|k: int| 0 <= k < i ==> pdr_of(ps@[k], sdf_at(sdfs@, k), #[trigger] ds@[k]),
        decreases n - i,
    {
        let sdf = if i < sdfs.len() {
            sdfs[i]
        } else {
            None
        };
        ds.push(pdr_from(&ps[i], sdf));
        i = i + 1;
    }
    let ghost dv = ds@;
    let out = sort_by_precedence(ds);
    assert(out@ == by_precedence(dv));
    out
}

/// What the N4 side tells the data plane about a session.
#[derive(Debug, Clone)]
pub enum PfcpSessionEvent {
    /// A session was established, with the rules it carries
    SessionEstablished {
        upf_seid: u64,
        smf_seid: u64,
        ue_ipv4: Option<[u8; 4]>,
        ul_teid: u32,
        dl_teid: u32,
        gnb_addr: Option<[u8; 4]>,
        pdrs: Vec<ParsedCreatePdr>,
        fars: Vec<ParsedCreateFar>,
        qers: Vec<ParsedCreateQer>,
        urrs: Vec<ParsedCreateUrr>,
        bars: Vec<ParsedCreateBar>,
    },
    /// A session was modified
    SessionModified {
        upf_seid: u64,
        dl_teid: Option<u32>,
        gnb_addr: Option<[u8; 4]>,
        updated_fars: Vec<ParsedCreateFar>,
        updated_qers: Vec<ParsedCreateQer>,
        updated_bars: Vec<ParsedCreateBar>,
        /// SNDEM: send End Marker on the old downlink tunnel
        send_end_marker: bool,
        /// DROBU: discard the buffered downlink packets
        drop_buffered: bool,
        /// The downlink tunnel before the modification
        old_dl_tunnel: Option<(u32, [u8; 4])>,
    },
    /// A session was deleted
    SessionDeleted { upf_seid: u64, ue_ipv4: Option<[u8; 4]> },
    /// The CP peer failed: every session is stale
    PeerFailure { peer: PeerAddr },
}

/// What the caller does after a session event: send the End Marker, then
/// flush the session's buffered downlink packets (`flush_buffered_dl`).
#[derive(Debug, Clone)]
pub struct SessionEventOutcome {
    pub end_marker: Option<(PeerAddr, Vec<u8>)>,
    pub flush: bool,
}

/// The QFI of a session: that of the first QER that has one.
pub open spec fn first_qfi(qs: Seq<ParsedCreateQer>) -> Option<u8>
    decreases qs.len(),
{
    if qs.len() == 0 {
        None
    } else if qs[0].qfi is Some {
        qs[0].qfi
    } else {
        first_qfi(qs.drop_first())
    }
}

/// The GTP-U peer of a gNB address; 127.0.0.1 without one.
pub open spec fn gnb_peer(gnb_addr: Option<[u8; 4]>) -> PeerAddr {
    match gnb_addr {
        Some(ip) => PeerAddr { ip, port: GTPU_PORT },
        None => PeerAddr { ip: [127u8, 0, 0, 1], port: GTPU_PORT },
    }
}

/// A session as an establishment installs it: its identity and tunnels,
/// the QFI of its first QER, no traffic, an empty buffer; the PDRs given
/// (converted and in matching order), else the default ones; the FARs
/// given, else the default ones; the QERs, URRs (installed at `now`) and
/// BARs given.
pub open spec fn established_session(
    t: DataPlaneSession,
    upf_seid: u64,
    smf_seid: u64,
    ue: [u8; 4],
    ul_teid: u32,
    dl_teid: u32,
    gnb_addr: Option<[u8; 4]>,
    pdrs: Seq<ParsedCreatePdr>,
    fars: Seq<ParsedCreateFar>,
    qers: Seq<ParsedCreateQer>,
    urrs: Seq<ParsedCreateUrr>,
    bars: Seq<ParsedCreateBar>,
    sdfs: Seq<Option<SdfRule>>,
    now: u64,
) -> bool {
    &&& t.upf_seid == upf_seid && t.smf_seid == smf_seid && t.ue_ipv4 == Some(ue)
    &&& t.ul_teid == ul_teid && t.dl_teid == dl_teid && t.gnb_addr == gnb_peer(gnb_addr)
    &&& t.pdu_session_id is None && t.qfi == first_qfi(qers)
    &&& t.ul_packets == 0 && t.dl_packets == 0 && t.ul_bytes == 0 && t.dl_bytes == 0
    &&& if pdrs.len() == 0 {
        default_pdrs(t.pdrs@)
    } else {
        exists|ds: Seq<DataPlanePdr>|
            #![trigger by_precedence(ds)]
            ds.len() == pdrs.len() && (forall|i: int| 0 <= i < ds.len() ==> pdr_of(pdrs[i], sdf_at(sdfs, i), #[trigger] ds[i]))
                && t.pdrs@ == by_precedence(ds)
    }
    &&& t.fars@ == (if fars.len() == 0 {
        default_fars(dl_teid, gnb_peer(gnb_addr))
    } else {
        with_fars(Map::empty(), fars)
    })
    &&& t.qers@ == with_qers(Map::empty(), qers)
    &&& t.urrs@ == with_urrs(Map::empty(), urrs, now)
    &&& t.bars@ == with_bars(Map::empty(), bars)
    &&& t.dl_buffer@.len() == 0 && !t.ddn_sent
}

/// A session once a modification's rules are applied: the FARs, QERs and
/// BARs given put in; with DROBU, the buffer emptied.
pub open spec fn modified_session(
    s: DataPlaneSession,
    t: DataPlaneSession,
    fars: Seq<ParsedCreateFar>,
    qers: Seq<ParsedCreateQer>,
    bars: Seq<ParsedCreateBar>,
    drop_buffered: bool,
) -> bool {
    &&& t.upf_seid == s.upf_seid && t.smf_seid == s.smf_seid && t.ue_ipv4 == s.ue_ipv4
    &&& t.ul_teid == s.ul_teid && t.dl_teid == s.dl_teid && t.gnb_addr == s.gnb_addr
    &&& t.pdu_session_id == s.pdu_session_id && t.qfi == s.qfi
    &&& t.ul_packets == s.ul_packets && t.dl_packets == s.dl_packets
    &&& t.ul_bytes == s.ul_bytes && t.dl_bytes == s.dl_bytes
    &&& t.pdrs == s.pdrs && t.urrs@ == s.urrs@
    &&& t.fars@ == with_fars(s.fars@, fars)
    &&& t.qers@ == with_qers(s.qers@, qers)
    &&& t.bars@ == with_bars(s.bars@, bars)
    &&& if drop_buffered {
        t.dl_buffer@.len() == 0 && !t.ddn_sent
    } else {
        t.dl_buffer@ == s.dl_buffer@ && t.ddn_sent == s.ddn_sent
    }
}

/// The session table once an establishment is installed (see
/// `established_session`): without a UE address, unchanged.
pub open spec fn established_done(
    before: SessionManager,
    after: SessionManager,
    upf_seid: u64,
    smf_seid: u64,
    ue_ipv4: Option<[u8; 4]>,
    ul_teid: u32,
    dl_teid: u32,
    gnb_addr: Option<[u8; 4]>,
    pdrs: Seq<ParsedCreatePdr>,
    fars: Seq<ParsedCreateFar>,
    qers: Seq<ParsedCreateQer>,
    urrs: Seq<ParsedCreateUrr>,
    bars: Seq<ParsedCreateBar>,
    sdfs: Seq<Option<SdfRule>>,
    now: u64,
) -> bool {
    match ue_ipv4 {
        None => after == before,
        Some(ue) => {
            &&& after.sessions().contains_key(upf_seid)
            &&& established_session(
                after.sessions()[upf_seid],
                upf_seid,
                smf_seid,
                ue,
                ul_teid,
                dl_teid,
                gnb_addr,
                pdrs,
                fars,
                qers,
                urrs,
                bars,
                sdfs,
                now,
            )
            &&& after.sessions() == before.sessions().insert(upf_seid, after.sessions()[upf_seid])
            &&& after.ul_index() == unlinked_ul(before, upf_seid).insert(ul_teid, upf_seid)
            &&& after.ip_index() == unlinked_ip(before, upf_seid).insert(ip_key(ue), upf_seid)
        },
    }
}

/// The session table once a modification's rules are applied (see
/// `modified_session`), and whether a flush follows.
pub open spec fn modification_done(
    before: SessionManager,
    after: SessionManager,
    upf_seid: u64,
    fars: Seq<ParsedCreateFar>,
    qers: Seq<ParsedCreateQer>,
    bars: Seq<ParsedCreateBar>,
    drop_buffered: bool,
    flush: bool,
) -> bool {
    &&& after.ul_index() == before.ul_index()
    &&& after.ip_index() == before.ip_index()
    &&& if !before.sessions().contains_key(upf_seid) {
        !flush && after.sessions() == before.sessions()
    } else {
        &&& after.sessions().contains_key(upf_seid)
        &&& modified_session(before.sessions()[upf_seid], after.sessions()[upf_seid], fars, qers, bars, drop_buffered)
        &&& after.sessions() == before.sessions().insert(upf_seid, after.sessions()[upf_seid])
        &&& flush == ((exists|i: int| 0 <= i < fars.len() && #[trigger] fars[i].apply_action & FAR_ACTION_FORW != 0)
            && !drop_buffered)
    }
}

/// The GTP-U peer of a gNB address, when given.
pub open spec fn gnb_peer_opt(gnb_addr: Option<[u8; 4]>) -> Option<PeerAddr> {
    match gnb_addr {
        Some(ip) => Some(PeerAddr { ip, port: GTPU_PORT }),
        None => None,
    }
}

/// Finds the QFI of a session (see `first_qfi`).
fn find_first_qfi(qs: &Vec<ParsedCreateQer>) -> (r: Option<u8>)
    ensures
        r == first_qfi(qs@),
{
    let n = qs.len();
    let mut i: usize = 0;
    assert(qs@.subrange(0, n as int) =~= qs@);
    while i < n
        invariant
            n == qs@.len(),
            i <= n,
            first_qfi(qs@.subrange(i as int, n as int)) == first_qfi(qs@),
        decreases n - i,
    {
        proof {
            let t = qs@.subrange(i as int, n as int);
            assert(t[0] == qs@[i as int]);
            assert(t.drop_first() =~= qs@.subrange(i + 1, n as int));
        }
        if qs[i].qfi.is_some() {
            return qs[i].qfi;
        }
        i = i + 1;
    }
    None
}

impl DataPlane {
    /// Installs an established session (see `established_session`) under
    /// its SEID, uplink TEID and UE address. Without a UE address nothing
    /// is installed.
    pub fn install_established(
        &mut self,
        upf_seid: u64,
        smf_seid: u64,
        ue_ipv4: Option<[u8; 4]>,
        ul_teid: u32,
        dl_teid: u32,
        gnb_addr: Option<[u8; 4]>,
        pdrs: &Vec<ParsedCreatePdr>,
        fars: &Vec<ParsedCreateFar>,
        qers: &Vec<ParsedCreateQer>,
        urrs: &Vec<ParsedCreateUrr>,
        bars: &Vec<ParsedCreateBar>,
        sdfs: &Vec<Option<SdfRule>>,
        now_secs: u64,
    )
        ensures
            final(self).stats == old(self).stats,
            final(self).path_table == old(self).path_table,
            ue_ipv4 is None ==> final(self).sessions == old(self).sessions,
            ue_ipv4 matches Some(ue) ==> {
                &&& final(self).sessions.sessions().contains_key(upf_seid)
                &&& established_session(
                    final(self).sessions.sessions()[upf_seid],
                    upf_seid,
                    smf_seid,
                    ue,
                    ul_teid,
                    dl_teid,
                    gnb_addr,
                    pdrs@,
                    fars@,
                    qers@,
                    urrs@,
                    bars@,
                    sdfs@,
                    now_secs,
                )
                &&& final(self).sessions.sessions() == old(self).sessions.sessions().insert(
                    upf_seid,
                    final(self).sessions.sessions()[upf_seid],
                )
                &&& final(self).sessions.ul_index() == unlinked_ul(old(self).sessions, upf_seid).insert(ul_teid, upf_seid)
                &&& final(self).sessions.ip_index() == unlinked_ip(old(self).sessions, upf_seid).insert(ip_key(ue), upf_seid)
            },
    {
        let ue = match ue_ipv4 {
            Some(u) => u,
            None => {
                return;
            },
        };
        let gnb = match gnb_addr {
            Some(ip) => PeerAddr { ip, port: GTPU_PORT },
            None => PeerAddr { ip: [127, 0, 0, 1], port: GTPU_PORT },
        };
        let qfi = find_first_qfi(qers);
        self.add_session_from_pfcp(upf_seid, smf_seid, ue, ul_teid, dl_teid, gnb, None, qfi);
        let ghost mid = self.sessions.sessions();
        let mut session = self.sessions.take_session(upf_seid).unwrap();
        if pdrs.len() > 0 {
            session.pdrs = pdrs_from(pdrs, sdfs);
        }
        if fars.len() > 0 {
            let mut m: HashMap<u32, DataPlaneFar> = HashMap::new();
            put_fars(&mut m, fars);
            session.fars = m;
        }
        let mut qm: HashMap<u32, DataPlaneQer> = HashMap::new();
        put_qers(&mut qm, qers);
        session.qers = qm;
        let mut um: HashMap<u32, DataPlaneUrr> = HashMap::new();
        put_urrs(&mut um, urrs, now_secs);
        session.urrs = um;
        let mut bm: HashMap<u8, DataPlaneBar> = HashMap::new();
        put_bars(&mut bm, bars);
        session.bars = bm;
        self.sessions.put_session(upf_seid, session);
        assert(self.sessions.sessions() =~= old(self).sessions.sessions().insert(
            upf_seid,
            self.sessions.sessions()[upf_seid],
        ));
    }

    /// Applies a modification's rules to a session (see
    /// `modified_session`); nothing when there is no such session. Returns
    /// whether buffered downlink packets are to be flushed: the session
    /// exists, one of the FARs given forwards, and DROBU is not set.
    pub fn apply_modification(
        &mut self,
        upf_seid: u64,
        fars: &Vec<ParsedCreateFar>,
        qers: &Vec<ParsedCreateQer>,
        bars: &Vec<ParsedCreateBar>,
        drop_buffered: bool,
    ) -> (flush: bool)
        ensures
            final(self).stats == old(self).stats,
            final(self).path_table == old(self).path_table,
            final(self).sessions.ul_index() == old(self).sessions.ul_index(),
            final(self).sessions.ip_index() == old(self).sessions.ip_index(),
            !old(self).sessions.sessions().contains_key(upf_seid) ==> !flush && final(self).sessions.sessions()
                == old(self).sessions.sessions(),
            old(self).sessions.sessions().contains_key(upf_seid) ==> {
                &&& final(self).sessions.sessions().contains_key(upf_seid)
                &&& modified_session(
                    old(self).sessions.sessions()[upf_seid],
                    final(self).sessions.sessions()[upf_seid],
                    fars@,
                    qers@,
                    bars@,
                    drop_buffered,
                )
                &&& final(self).sessions.sessions() == old(self).sessions.sessions().insert(
                    upf_seid,
                    final(self).sessions.sessions()[upf_seid],
                )
                &&& flush == ((exists|i: int| 0 <= i < fars@.len() && #[trigger] fars@[i].apply_action & FAR_ACTION_FORW != 0)
                    && !drop_buffered)
            },
    {
        let mut session = match self.sessions.take_session(upf_seid) {
            Some(s) => s,
            None => {
                return false;
            },
        };
        let ghost s0 = session;
        let forwards = put_fars(&mut session.fars, fars);
        put_qers(&mut session.qers, qers);
        put_bars(&mut session.bars, bars);
        if drop_buffered {
            let _ = session.drain_dl_buffer();
        }
        self.sessions.put_session(upf_seid, session);
        assert(self.sessions.sessions() =~= old(self).sessions.sessions().insert(
            upf_seid,
            self.sessions.sessions()[upf_seid],
        ));
        forwards && !drop_buffered
    }

    /// Removes every session of the table, with its TEID and address
    /// entries.
    pub fn remove_all_sessions(&mut self)
        ensures
            final(self).stats == old(self).stats,
            final(self).path_table == old(self).path_table,
            final(self).sessions.sessions() == Map::<u64, crate::dp_session::DataPlaneSession>::empty(),
    {
        let keys = self.sessions.seids();
        let ghost m0 = self.sessions.sessions();
        let n = keys.len();
        let mut i: usize = 0;
        while i < n
            invariant
                n == keys@.len(),
                i <= n,
                self.stats == old(self).stats,
                self.path_table == old(self).path_table,
                keys@.to_set() == m0.dom(),
                forall|t: int| 0 <= t < i ==> !self.sessions.sessions().contains_key(#[trigger] keys@[t]),
                forall|k: u64| #[trigger] self.sessions.sessions().contains_key(k) ==> m0.contains_key(k),
            decreases n - i,
        {
            let seid = keys[i];
            self.remove_session_from_pfcp(seid);
            i = i + 1;
        }
        proof {
            assert forall|k: u64| !#[trigger] self.sessions.sessions().contains_key(k) by {
                if self.sessions.sessions().contains_key(k) {
                    assert(keys@.to_set().contains(k));
                    let t = choose|t: int| 0 <= t < n && keys@[t] == k;
                    assert(!self.sessions.sessions().contains_key(keys@[t]));
                }
            }
            assert(self.sessions.sessions() =~= Map::<u64, crate::dp_session::DataPlaneSession>::empty());
        }
    }

    /// Takes a session event from the N4 side: an establishment installs
    /// the session (`install_established`); a modification moves the
    /// downlink tunnel when a TEID or gNB address is given
    /// (`update_session_from_pfcp`) and applies the rules
    /// (`apply_modification`), and asks for the End Marker on the old
    /// tunnel when SNDEM is set and it is known; a deletion removes the
    /// session; a CP peer failure removes every session.
    #[verifier::spinoff_prover]
    #[verifier::rlimit(40)]
    pub fn handle_pfcp_session_event(
        &mut self,
        event: &PfcpSessionEvent,
        sdfs: &Vec<Option<SdfRule>>,
        now_secs: u64,
    ) -> (out: SessionEventOutcome)
        ensures
            final(self).stats == old(self).stats,
            final(self).path_table == old(self).path_table,
            match event {
                PfcpSessionEvent::SessionModified { send_end_marker, old_dl_tunnel, .. } => match out.end_marker {
                    Some((to, pkt)) => *send_end_marker && (old_dl_tunnel matches Some((teid, ip)) && to == (PeerAddr {
                        ip: *ip,
                        port: GTPU_PORT,
                    }) && pkt@ == end_marker(*teid)),
                    None => !*send_end_marker || old_dl_tunnel is None,
                },
                _ => out.end_marker is None && !out.flush,
            },
            match event {
                PfcpSessionEvent::SessionEstablished {
                    upf_seid,
                    smf_seid,
                    ue_ipv4,
                    ul_teid,
                    dl_teid,
                    gnb_addr,
                    pdrs,
                    fars,
                    qers,
                    urrs,
                    bars,
                } => established_done(
                    old(self).sessions,
                    final(self).sessions,
                    *upf_seid,
                    *smf_seid,
                    *ue_ipv4,
                    *ul_teid,
                    *dl_teid,
                    *gnb_addr,
                    pdrs@,
                    fars@,
                    qers@,
                    urrs@,
                    bars@,
                    sdfs@,
                    now_secs,
                ),
                PfcpSessionEvent::SessionDeleted { upf_seid, .. } => final(self).sessions.sessions() == old(
                    self,
                ).sessions.sessions().remove(*upf_seid),
                PfcpSessionEvent::PeerFailure { .. } => final(self).sessions.sessions() == Map::<
                    u64,
                    crate::dp_session::DataPlaneSession,
                >::empty(),
                _ => true,
            },
            event matches PfcpSessionEvent::SessionModified {
                upf_seid,
                dl_teid,
                gnb_addr,
                updated_fars,
                updated_qers,
                updated_bars,
                drop_buffered,
                ..
            } ==> (dl_teid is None && gnb_addr is None ==> modification_done(
                old(self).sessions,
                final(self).sessions,
                *upf_seid,
                updated_fars@,
                updated_qers@,
                updated_bars@,
                *drop_buffered,
                out.flush,
            )),
            event matches PfcpSessionEvent::SessionModified {
                upf_seid,
                dl_teid,
                gnb_addr,
                updated_fars,
                updated_qers,
                updated_bars,
                drop_buffered,
                ..
            } ==> (dl_teid is Some || gnb_addr is Some ==> exists|mid: SessionManager|
                #![trigger tunnel_moved(old(self).sessions, mid, *upf_seid, *dl_teid, gnb_peer_opt(*gnb_addr))]
                tunnel_moved(old(self).sessions, mid, *upf_seid, *dl_teid, gnb_peer_opt(*gnb_addr))
                    && modification_done(
                    mid,
                    final(self).sessions,
                    *upf_seid,
                    updated_fars@,
                    updated_qers@,
                    updated_bars@,
                    *drop_buffered,
                    out.flush,
                )),
    {
        match event {
            PfcpSessionEvent::SessionEstablished {
                upf_seid,
                smf_seid,
                ue_ipv4,
                ul_teid,
                dl_teid,
                gnb_addr,
                pdrs,
                fars,
                qers,
                urrs,
                bars,
            } => {
                self.install_established(
                    *upf_seid,
                    *smf_seid,
                    *ue_ipv4,
                    *ul_teid,
                    *dl_teid,
                    *gnb_addr,
                    pdrs,
                    fars,
                    qers,
                    urrs,
                    bars,
                    sdfs,
                    now_secs,
                );
                proof {
                    if let Some(ue) = *ue_ipv4 {
                        assert(self.sessions.sessions() =~= old(self).sessions.sessions().insert(
                            *upf_seid,
                            self.sessions.sessions()[*upf_seid],
                        ));
                        assert(self.sessions.ul_index() =~= unlinked_ul(old(self).sessions, *upf_seid).insert(*ul_teid, *upf_seid));
                        assert(self.sessions.ip_index() =~= unlinked_ip(old(self).sessions, *upf_seid).insert(ip_key(ue), *upf_seid));
                    }
                    assert(established_done(
                        old(self).sessions,
                        self.sessions,
                        *upf_seid,
                        *smf_seid,
                        *ue_ipv4,
                        *ul_teid,
                        *dl_teid,
                        *gnb_addr,
                        pdrs@,
                        fars@,
                        qers@,
                        urrs@,
                        bars@,
                        sdfs@,
                        now_secs,
                    ));
                }
                SessionEventOutcome { end_marker: None, flush: false }
            },
            PfcpSessionEvent::SessionModified {
                upf_seid,
                dl_teid,
                gnb_addr,
                updated_fars,
                updated_qers,
                updated_bars,
                send_end_marker,
                drop_buffered,
                old_dl_tunnel,
            } => {
                let end_marker = if *send_end_marker {
                    match old_dl_tunnel {
                        Some((teid, ip)) => Some((PeerAddr { ip: *ip, port: GTPU_PORT }, build_gtpu_end_marker(*teid))),
                        None => None,
                    }
                } else {
                    None
                };
                let gnb = match gnb_addr {
                    Some(ip) => Some(PeerAddr { ip: *ip, port: GTPU_PORT }),
                    None => None,
                };
                if dl_teid.is_some() || gnb.is_some() {
                    self.update_session_from_pfcp(*upf_seid, *dl_teid, gnb);
                }
                let ghost mid = self.sessions;
                let flush = self.apply_modification(*upf_seid, updated_fars, updated_qers, updated_bars, *drop_buffered);
                proof {
                    if mid.sessions().contains_key(*upf_seid) {
                        assert(self.sessions.sessions() =~= mid.sessions().insert(
                            *upf_seid,
                            self.sessions.sessions()[*upf_seid],
                        ));
                    } else {
                        assert(self.sessions.sessions() =~= mid.sessions());
                    }
                    assert(modification_done(
                        mid,
                        self.sessions,
                        *upf_seid,
                        updated_fars@,
                        updated_qers@,
                        updated_bars@,
                        *drop_buffered,
                        flush,
                    ));
                    assert(gnb == gnb_peer_opt(*gnb_addr));
                    assert(if dl_teid is Some || gnb_addr is Some {
                        tunnel_moved(old(self).sessions, mid, *upf_seid, *dl_teid, gnb_peer_opt(*gnb_addr))
                    } else {
                        mid == old(self).sessions
                    });
                }
                SessionEventOutcome { end_marker, flush }
            },
            PfcpSessionEvent::SessionDeleted { upf_seid, .. } => {
                self.remove_session_from_pfcp(*upf_seid);
                SessionEventOutcome { end_marker: None, flush: false }
            },
            PfcpSessionEvent::PeerFailure { .. } => {
                self.remove_all_sessions();
                SessionEventOutcome { end_marker: None, flush: false }
            },
        }
    }
}

} // verus!
