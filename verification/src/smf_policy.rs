//! The SM policy an SMF applies to a PDU session: the PCC rules it installs
//! for an authorized policy decision, and the Session-AMBR ceiling of a
//! reduced-capability (RedCap) UE.

use vstd::prelude::*;

verus! {

/// The RedCap Session-AMBR ceiling for the downlink (bit/s), used when no
/// other ceiling is configured.
pub const REDCAP_SESS_AMBR_DL_BPS: u64 = 150_000_000;

/// The RedCap Session-AMBR ceiling for the uplink (bit/s), used when no
/// other ceiling is configured.
pub const REDCAP_SESS_AMBR_UL_BPS: u64 = 50_000_000;

/// One PCC rule of an authorized SM policy decision: its 5QI and the bit
/// rates it names, each absent where the decision leaves it open.
#[derive(Debug, Clone)]
pub struct PccRuleDecision {
    pub id: String,
    pub five_qi: u8,
    pub gbr_ul_bps: Option<u64>,
    pub gbr_dl_bps: Option<u64>,
    pub mbr_ul_bps: Option<u64>,
    pub mbr_dl_bps: Option<u64>,
}

/// An authorized SM policy decision: its PCC rules, the default 5QI, the
/// ARP priority level and the Session-AMBR (bit/s; 0 means unset).
#[derive(Debug, Clone)]
pub struct PolicyDecision {
    pub pcc_rules: Vec<PccRuleDecision>,
    pub def_five_qi: u8,
    pub arp_priority_level: u8,
    pub sess_ambr_ul_bps: u64,
    pub sess_ambr_dl_bps: u64,
}

/// Allocation and retention priority of a QoS flow.
#[derive(Debug, Clone, Copy, PartialEq, Eq, Structural)]
pub struct ArpParams {
    pub priority_level: u8,
    pub pre_emption_capability: bool,
    pub pre_emption_vulnerability: bool,
}

/// An uplink/downlink pair of bit rates (bit/s).
#[derive(Debug, Clone, Copy, PartialEq, Eq, Structural)]
pub struct BitRate {
    pub uplink: u64,
    pub downlink: u64,
}

/// An installed PCC rule with its QoS.
#[derive(Debug, Clone)]
pub struct PccRule {
    pub id: String,
    pub qci: u8,
    pub arp: ArpParams,
    pub mbr: BitRate,
    pub gbr: BitRate,
}

/// The PCC rules a session's QoS flows are bound from.
#[derive(Debug, Clone)]
pub struct SessionPolicy {
    pub rules: Vec<PccRule>,
}

/// A value the decision may leave open, with its fallback.
pub open spec fn or_else(o: Option<u64>, fallback: u64) -> u64 {
    match o {
        Some(v) => v,
        None => fallback,
    }
}

/// `r` is the PCC rule named `id` for 5QI `five_qi`: ARP at `arp`,
/// pre-empting exactly when the 5QI is an XR delay-critical GBR one
/// (82-85) and never pre-emptable, with the given GBR and MBR.
pub open spec fn is_rule(r: PccRule, id: Seq<char>, five_qi: u8, arp: u8, gbr: BitRate, mbr: BitRate) -> bool {
    &&& r.id@ == id
    &&& r.qci == five_qi
    &&& r.arp == ArpParams {
        priority_level: arp,
        pre_emption_capability: 82 <= five_qi <= 85,
        pre_emption_vulnerability: false,
    }
    &&& r.gbr == gbr
    &&& r.mbr == mbr
}

/// The rule installed for the decision's `i`-th PCC rule: its GBR where
/// given (else 0), its MBR where given (else the Session-AMBR).
pub open spec fn installs_decision_rule(r: PccRule, d: PolicyDecision, i: int) -> bool {
    let p = d.pcc_rules@[i];
    is_rule(
        r,
        p.id@,
        p.five_qi,
        d.arp_priority_level,
        BitRate { uplink: or_else(p.gbr_ul_bps, 0), downlink: or_else(p.gbr_dl_bps, 0) },
        BitRate {
            uplink: or_else(p.mbr_ul_bps, d.sess_ambr_ul_bps),
            downlink: or_else(p.mbr_dl_bps, d.sess_ambr_dl_bps),
        },
    )
}

/// The rule installed when the decision has no PCC rule: "default", for
/// the default 5QI, no GBR, the Session-AMBR as MBR.
pub open spec fn installs_default_rule(r: PccRule, d: PolicyDecision) -> bool {
    is_rule(
        r,
        "default"@,
        d.def_five_qi,
        d.arp_priority_level,
        BitRate { uplink: 0, downlink: 0 },
        BitRate { uplink: d.sess_ambr_ul_bps, downlink: d.sess_ambr_dl_bps },
    )
}

/// The session policy of a decision: one rule per PCC rule, in order, or
/// the single default rule when there is none.
pub open spec fn is_session_policy_of(sp: SessionPolicy, d: PolicyDecision) -> bool {
    if d.pcc_rules@.len() == 0 {
        sp.rules@.len() == 1 && installs_default_rule(sp.rules@[0], d)
    } else {
        &&& sp.rules@.len() == d.pcc_rules@.len()
        &&& forall|i: int| 0 <= i < sp.rules@.len() ==> #[trigger] installs_decision_rule(sp.rules@[i], d, i)
    }
}

fn make_rule(id: String, five_qi: u8, arp: u8, gbr: BitRate, mbr: BitRate) -> (r: PccRule)
    ensures
        is_rule(r, id@, five_qi, arp, gbr, mbr),
{
    let pre_emption_capability = crate::ip_qos::is_xr_5qi(five_qi);
    PccRule {
        id,
        qci: five_qi,
        arp: ArpParams { priority_level: arp, pre_emption_capability, pre_emption_vulnerability: false },
        mbr,
        gbr,
    }
}

fn value_or(o: Option<u64>, fallback: u64) -> (v: u64)
    ensures
        v == or_else(o, fallback),
{
    match o {
        Some(v) => v,
        None => fallback,
    }
}

/// The session policy the QoS-flow binding inspects for an authorized
/// decision: each PCC rule with its 5QI, GBR (0 where absent) and MBR (the
/// Session-AMBR where absent); a decision without PCC rules gives one
/// "default" rule for the default 5QI, so that an XR default 5QI still
/// yields an XR flow.
pub fn decision_to_session_policy(decision: &PolicyDecision) -> (sp: SessionPolicy)
    ensures
        is_session_policy_of(sp, *decision),
{
    let mut rules: Vec<PccRule> = Vec::new();
    if decision.pcc_rules.len() == 0 {
        let r = make_rule(
            "default".to_owned(),
            decision.def_five_qi,
            decision.arp_priority_level,
            BitRate { uplink: 0, downlink: 0 },
            BitRate { uplink: decision.sess_ambr_ul_bps, downlink: decision.sess_ambr_dl_bps },
        );
        rules.push(r);
        return SessionPolicy { rules };
    }
    let mut i: usize = 0;
    while i < decision.pcc_rules.len()
        invariant
            i <= decision.pcc_rules@.len(),
            rules@.len() == i,
            forall|j: int| 0 <= j < i ==> #[trigger] installs_decision_rule(rules@[j], *decision, j),
        decreases decision.pcc_rules@.len() - i,
    {
        let p = &decision.pcc_rules[i];
        let gbr = BitRate { uplink: value_or(p.gbr_ul_bps, 0), downlink: value_or(p.gbr_dl_bps, 0) };
        let mbr = BitRate {
            uplink: value_or(p.mbr_ul_bps, decision.sess_ambr_ul_bps),
            downlink: value_or(p.mbr_dl_bps, decision.sess_ambr_dl_bps),
        };
        let r = make_rule(p.id.clone(), p.five_qi, decision.arp_priority_level, gbr, mbr);
        rules.push(r);
        i = i + 1;
    }
    SessionPolicy { rules }
}

/// The Session-AMBR a RedCap UE is authorized for one direction: the
/// authorized value held to the ceiling, an unset (0) one taken as above
/// it.
pub open spec fn redcap_ambr(authorized: u64, cap: u64) -> u64 {
    if authorized == 0 || authorized > cap {
        cap
    } else {
        authorized
    }
}

/// Holds one direction of the Session-AMBR to the RedCap ceiling `cap`:
/// an unset (0) AMBR becomes the ceiling, a larger one is lowered to it,
/// a smaller one stays.
pub fn redcap_session_ambr(authorized: u64, cap: u64) -> (r: u64)
    ensures
        r == redcap_ambr(authorized, cap),
        r <= cap,
        authorized != 0 ==> r <= authorized,
{
    if authorized == 0 || authorized > cap {
        cap
    } else {
        authorized
    }
}

impl PolicyDecision {
    /// Reduces the decision's Session-AMBR to the RedCap ceilings (bit/s),
    /// so that the N1 accept, the N4 QER and the stored binding all carry
    /// the reduced value; the rest of the decision stays.
    pub fn cap_for_redcap(&mut self, ul_cap: u64, dl_cap: u64)
        ensures
            final(self).sess_ambr_ul_bps == redcap_ambr(old(self).sess_ambr_ul_bps, ul_cap),
            final(self).sess_ambr_dl_bps == redcap_ambr(old(self).sess_ambr_dl_bps, dl_cap),
            final(self).pcc_rules@ == old(self).pcc_rules@,
            final(self).def_five_qi == old(self).def_five_qi,
            final(self).arp_priority_level == old(self).arp_priority_level,
    {
        self.sess_ambr_ul_bps = redcap_session_ambr(self.sess_ambr_ul_bps, ul_cap);
        self.sess_ambr_dl_bps = redcap_session_ambr(self.sess_ambr_dl_bps, dl_cap);
    }
}

/// Capping is idempotent: a Session-AMBR already held to a RedCap ceiling
/// is left as it is by a second reduction to the same ceiling.
pub proof fn lemma_redcap_cap_idempotent(authorized: u64, cap: u64)
    ensures
        redcap_ambr(redcap_ambr(authorized, cap), cap) == redcap_ambr(authorized, cap),
{
}

} // verus!
