use nextgcore::smf_sbi::{select_pdu_session, CreateRejection, SessionSelection};
use nextgcore::smf_policy::{
    decision_to_session_policy, redcap_session_ambr, ArpParams, BitRate, PccRuleDecision,
    PolicyDecision, REDCAP_SESS_AMBR_DL_BPS, REDCAP_SESS_AMBR_UL_BPS,
};

fn decision(rules: Vec<PccRuleDecision>, def_five_qi: u8) -> PolicyDecision {
    PolicyDecision {
        pcc_rules: rules,
        def_five_qi,
        arp_priority_level: 8,
        sess_ambr_ul_bps: 100_000_000,
        sess_ambr_dl_bps: 200_000_000,
    }
}

#[test]
fn session_policy_default_rule_when_no_pcc_rules() {
    let sp = decision_to_session_policy(&decision(vec![], 9));
    assert_eq!(sp.rules.len(), 1);
    let r = &sp.rules[0];
    assert_eq!(r.id, "default");
    assert_eq!(r.qci, 9);
    assert_eq!(r.arp, ArpParams { priority_level: 8, pre_emption_capability: false, pre_emption_vulnerability: false });
    assert_eq!(r.gbr, BitRate { uplink: 0, downlink: 0 });
    assert_eq!(r.mbr, BitRate { uplink: 100_000_000, downlink: 200_000_000 });
}

#[test]
fn session_policy_xr_default_5qi_pre_empts() {
    let sp = decision_to_session_policy(&decision(vec![], 83));
    assert_eq!(sp.rules.len(), 1);
    assert_eq!(sp.rules[0].qci, 83);
    assert!(sp.rules[0].arp.pre_emption_capability);
    assert!(!sp.rules[0].arp.pre_emption_vulnerability);
}

#[test]
fn session_policy_one_rule_per_pcc_rule() {
    let rules = vec![
        PccRuleDecision {
            id: "xr".to_string(),
            five_qi: 82,
            gbr_ul_bps: Some(5_000_000),
            gbr_dl_bps: Some(20_000_000),
            mbr_ul_bps: Some(10_000_000),
            mbr_dl_bps: None,
        },
        PccRuleDecision {
            id: "web".to_string(),
            five_qi: 9,
            gbr_ul_bps: None,
            gbr_dl_bps: None,
            mbr_ul_bps: None,
            mbr_dl_bps: Some(50_000_000),
        },
    ];
    let sp = decision_to_session_policy(&decision(rules, 9));
    assert_eq!(sp.rules.len(), 2);
    assert_eq!(sp.rules[0].id, "xr");
    assert_eq!(sp.rules[0].qci, 82);
    assert!(sp.rules[0].arp.pre_emption_capability);
    assert_eq!(sp.rules[0].gbr, BitRate { uplink: 5_000_000, downlink: 20_000_000 });
    assert_eq!(sp.rules[0].mbr, BitRate { uplink: 10_000_000, downlink: 200_000_000 });
    assert_eq!(sp.rules[1].id, "web");
    assert!(!sp.rules[1].arp.pre_emption_capability);
    assert_eq!(sp.rules[1].gbr, BitRate { uplink: 0, downlink: 0 });
    assert_eq!(sp.rules[1].mbr, BitRate { uplink: 100_000_000, downlink: 50_000_000 });
}

#[test]
fn redcap_ambr_unset_takes_ceiling() {
    assert_eq!(redcap_session_ambr(0, REDCAP_SESS_AMBR_DL_BPS), 150_000_000);
    assert_eq!(redcap_session_ambr(0, REDCAP_SESS_AMBR_UL_BPS), 50_000_000);
}

#[test]
fn redcap_ambr_lowered_to_ceiling() {
    assert_eq!(redcap_session_ambr(1_000_000_000, 150_000_000), 150_000_000);
    assert_eq!(redcap_session_ambr(150_000_000, 150_000_000), 150_000_000);
}

#[test]
fn redcap_ambr_smaller_stays() {
    assert_eq!(redcap_session_ambr(10_000_000, 50_000_000), 10_000_000);
}

#[test]
fn redcap_ambr_capping_twice_is_capping_once() {
    for a in [0u64, 1, 49_999_999, 50_000_000, 50_000_001, u64::MAX] {
        let once = redcap_session_ambr(a, 50_000_000);
        assert_eq!(redcap_session_ambr(once, 50_000_000), once);
    }
}

#[test]
fn redcap_cap_applies_to_decision() {
    let mut d = decision(vec![], 9);
    d.sess_ambr_ul_bps = 0;
    d.sess_ambr_dl_bps = 1_000_000_000;
    d.cap_for_redcap(REDCAP_SESS_AMBR_UL_BPS, REDCAP_SESS_AMBR_DL_BPS);
    assert_eq!(d.sess_ambr_ul_bps, 50_000_000);
    assert_eq!(d.sess_ambr_dl_bps, 150_000_000);
    assert_eq!(d.def_five_qi, 9);
    assert_eq!(d.arp_priority_level, 8);
}

#[test]
fn pdu_session_ipv4_and_ipv4v6_select_ipv4() {
    assert_eq!(select_pdu_session(Some(1), Some(1)), Ok(SessionSelection { pdu_session_type: 1, ssc_mode: 1 }));
    assert_eq!(select_pdu_session(Some(3), Some(2)), Ok(SessionSelection { pdu_session_type: 1, ssc_mode: 2 }));
    assert_eq!(select_pdu_session(None, None), Ok(SessionSelection { pdu_session_type: 1, ssc_mode: 1 }));
    assert_eq!(select_pdu_session(None, Some(0)), Ok(SessionSelection { pdu_session_type: 1, ssc_mode: 1 }));
}

#[test]
fn pdu_session_ipv6_only_rejected_with_cause_50() {
    let expected = CreateRejection { status: 403, cause: "PDU_SESSION_TYPE_NOT_SUPPORTED", gsm_cause: 50 };
    assert_eq!(select_pdu_session(Some(2), Some(1)), Err(expected));
    assert_eq!(select_pdu_session(Some(5), None), Err(expected));
}
