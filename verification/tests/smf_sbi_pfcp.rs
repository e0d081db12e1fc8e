use nextgcore::smf_n4::{build_create_qer, PfcpMessageBuilder, QerParams, UrrParams};
use nextgcore::upf_rules::parse_create_qer;
use nextgcore::upf_n4::{build_session_establishment_response, CreatedPdr, FSeid, FTeid, NodeId};
use nextgcore::upf_parse::{ParsedFSeid, ParsedFTeid, ParsedUeIpAddr};
use nextgcore::smf_pfcp::{
    check_session_response, dl_far_activation_payload, dl_far_deactivation_payload,
    establishment_request_payload, establishment_result, pfcp_cause, session_qer_update_payload,
    N4ResponseError, SessionQos, XrSessionFlow,
};
use nextgcore::smf_sbi::{
    classify_sm_context_update, route_sbi_request, validate_sm_context_create_data, SbiRouteKind,
    SmContextCreateFields, SmContextUpdateAction,
};

fn matched_sim() -> SmContextCreateFields {
    SmContextCreateFields {
        pdu_session_id: Some(5),
        has_dnn: true,
        sst: Some(1),
        n1_sm_msg_ref: true,
        n1_sm_msg_inline: false,
    }
}

#[test]
fn validate_sm_context_create_data_table() {
    assert_eq!(validate_sm_context_create_data(&matched_sim()), None);

    let inline_n1 = SmContextCreateFields {
        pdu_session_id: Some(1),
        has_dnn: true,
        sst: Some(2),
        n1_sm_msg_ref: false,
        n1_sm_msg_inline: true,
    };
    assert_eq!(validate_sm_context_create_data(&inline_n1), None);

    let no_psi = SmContextCreateFields { pdu_session_id: Some(0), ..matched_sim() };
    assert_eq!(validate_sm_context_create_data(&no_psi), Some("MANDATORY_IE_INCORRECT"));
    let big_psi = SmContextCreateFields { pdu_session_id: Some(16), ..matched_sim() };
    assert_eq!(validate_sm_context_create_data(&big_psi), Some("MANDATORY_IE_INCORRECT"));

    let no_dnn = SmContextCreateFields { has_dnn: false, ..matched_sim() };
    assert_eq!(validate_sm_context_create_data(&no_dnn), Some("MANDATORY_IE_MISSING"));

    let no_sst = SmContextCreateFields { sst: None, ..matched_sim() };
    assert_eq!(validate_sm_context_create_data(&no_sst), Some("MANDATORY_IE_MISSING"));

    let no_n1 = SmContextCreateFields { n1_sm_msg_ref: false, n1_sm_msg_inline: false, ..matched_sim() };
    assert_eq!(validate_sm_context_create_data(&no_n1), Some("N1_SM_ERROR"));
}

#[test]
fn test_route_sm_context_operations() {
    let r = route_sbi_request("POST", "/nsmf-pdusession/v1/sm-contexts");
    assert_eq!(r.kind, SbiRouteKind::SmContextCreate);
    assert!(r.target.is_none());

    let r = route_sbi_request("POST", "/nsmf-pdusession/v1/sm-contexts/42/modify");
    assert_eq!(r.kind, SbiRouteKind::SmContextUpdate);
    assert_eq!(r.target.as_deref(), Some("42"));

    let r = route_sbi_request("POST", "/nsmf-pdusession/v1/sm-contexts/7/release?x=1");
    assert_eq!(r.kind, SbiRouteKind::SmContextRelease);
    assert_eq!(r.target.as_deref(), Some("7"));

    let r = route_sbi_request("POST", "//nsmf-pdusession/v1/sm-contexts/9/retrieve");
    assert_eq!(r.kind, SbiRouteKind::SmContextRetrieve);
    assert_eq!(r.target.as_deref(), Some("9"));

    let r = route_sbi_request("POST", "/nsmf-pdusession/v1/sm-contexts/9");
    assert_eq!(r.kind, SbiRouteKind::UnknownEndpoint);

    let r = route_sbi_request("GET", "/nsmf-pdusession/v1/sm-contexts");
    assert_eq!(r.kind, SbiRouteKind::UnknownEndpoint);
}

#[test]
fn test_route_pdu_sessions_events_and_callbacks() {
    assert_eq!(route_sbi_request("POST", "/nsmf-pdusession/v1/pdu-sessions").kind, SbiRouteKind::PduSessionCreate);
    let r = route_sbi_request("POST", "/nsmf-pdusession/v1/pdu-sessions/3/release");
    assert_eq!(r.kind, SbiRouteKind::PduSessionRelease);
    assert_eq!(r.target.as_deref(), Some("3"));

    assert_eq!(
        route_sbi_request("POST", "/nsmf-event-exposure/v1/subscriptions/5").kind,
        SbiRouteKind::EventSubscribe
    );
    let r = route_sbi_request("DELETE", "/nsmf-event-exposure/v1/subscriptions/5");
    assert_eq!(r.kind, SbiRouteKind::EventUnsubscribe);
    assert_eq!(r.target.as_deref(), Some("5"));
    assert_eq!(
        route_sbi_request("DELETE", "/nsmf-event-exposure/v1/subscriptions").kind,
        SbiRouteKind::MissingSubscriptionId
    );

    let r = route_sbi_request("POST", "/nsmf-callback/v1/sm-policy-notify/11");
    assert_eq!(r.kind, SbiRouteKind::SmPolicyUpdateNotify);
    assert_eq!(r.target.as_deref(), Some("11"));
    let r = route_sbi_request("POST", "/nsmf-callback/v1/sm-policy-notify/11/terminate");
    assert_eq!(r.kind, SbiRouteKind::SmPolicyTerminateNotify);
    let r = route_sbi_request("POST", "/nsmf-callback/v1/sm-policy-notify/11/bogus");
    assert_eq!(r.kind, SbiRouteKind::UnknownNotifyAction);
    assert_eq!(r.target.as_deref(), Some("bogus"));
    assert_eq!(
        route_sbi_request("POST", "/nsmf-callback/v1/sm-policy-notify").kind,
        SbiRouteKind::MissingSmContextRef
    );
    let r = route_sbi_request("POST", "/nsmf-callback/v1/n1-n2-failure/8");
    assert_eq!(r.kind, SbiRouteKind::N1N2TransferFailure);
    assert_eq!(r.target.as_deref(), Some("8"));
    assert_eq!(route_sbi_request("POST", "/nsmf-callback/v1/amf-status/8").kind, SbiRouteKind::AmfStatusChange);
    assert_eq!(route_sbi_request("POST", "/a/b").kind, SbiRouteKind::InvalidPath);
    assert_eq!(route_sbi_request("POST", "").kind, SbiRouteKind::InvalidPath);
}

fn qos() -> SessionQos {
    SessionQos { qfi: 9, ambr_ul_bps: 100_000_000, ambr_dl_bps: 200_000_000, xr_flow: None }
}

// The hand-derived UL and DL Create PDR values for UE 10.45.0.2, QER 1, QFI 9.
const GOLDEN_UL_PDR: [u8; 67] = [
    0x00, 0x38, 0x00, 0x02, 0x00, 0x01, 0x00, 0x1D, 0x00, 0x04, 0x00, 0x00, 0x00, 0x64, 0x00, 0x02, 0x00, 0x1C,
    0x00, 0x14, 0x00, 0x01, 0x00, 0x00, 0x15, 0x00, 0x05, 0x00, 0x00, 0x00, 0x00, 0x00, 0x00, 0x5D, 0x00, 0x05,
    0x02, 0x0A, 0x2D, 0x00, 0x02, 0x00, 0x7C, 0x00, 0x01, 0x09, 0x00, 0x5F, 0x00, 0x01, 0x00, 0x00, 0x6C, 0x00,
    0x04, 0x00, 0x00, 0x00, 0x01, 0x00, 0x6D, 0x00, 0x04, 0x00, 0x00, 0x00, 0x01,
];
const GOLDEN_DL_PDR: [u8; 53] = [
    0x00, 0x38, 0x00, 0x02, 0x00, 0x02, 0x00, 0x1D, 0x00, 0x04, 0x00, 0x00, 0x00, 0x64, 0x00, 0x02, 0x00, 0x13,
    0x00, 0x14, 0x00, 0x01, 0x01, 0x00, 0x5D, 0x00, 0x05, 0x06, 0x0A, 0x2D, 0x00, 0x02, 0x00, 0x7C, 0x00, 0x01,
    0x09, 0x00, 0x6C, 0x00, 0x04, 0x00, 0x00, 0x00, 0x02, 0x00, 0x6D, 0x00, 0x04, 0x00, 0x00, 0x00, 0x01,
];

fn contains(hay: &[u8], needle: &[u8]) -> bool {
    hay.windows(needle.len()).any(|w| w == needle)
}

#[test]
fn test_establishment_payload_layout() {
    let v = establishment_request_payload(0x1001, [10, 0, 0, 1], [10, 45, 0, 2], "internet", 1, &qos(), None);
    // Node ID then F-SEID lead when there is no URR.
    assert_eq!(&v[..9], &[0x00, 0x3C, 0x00, 0x05, 0, 10, 0, 0, 1]);
    assert_eq!(&v[9..13], &[0x00, 0x39, 0x00, 0x0D]);
    // APN/DNN in label form, S-NSSAI without SD.
    assert!(contains(&v, &[0x00, 0x9F, 0x00, 0x09, 8, b'i', b'n', b't', b'e', b'r', b'n', b'e', b't']));
    assert!(contains(&v, &[0x01, 0x01, 0x00, 0x04, 1, 0xFF, 0xFF, 0xFF]));
    // The two PDRs are the golden ones.
    let mut ul = vec![0x00, 0x01, 0x00, GOLDEN_UL_PDR.len() as u8];
    ul.extend_from_slice(&GOLDEN_UL_PDR);
    let mut dl = vec![0x00, 0x01, 0x00, GOLDEN_DL_PDR.len() as u8];
    dl.extend_from_slice(&GOLDEN_DL_PDR);
    assert!(contains(&v, &ul));
    assert!(contains(&v, &dl));
    // The DL FAR buffers toward Access and ends the message.
    let dl_far = [0x00, 0x03, 0x00, 0x0E, 0x00, 0x6C, 0x00, 0x04, 0, 0, 0, 2, 0x00, 0x2C, 0x00, 0x02, 0x00, 0x04];
    assert_eq!(&v[v.len() - dl_far.len()..], &dl_far);
}

#[test]
fn test_establishment_payload_with_urr_and_xr_flow() {
    let urr = UrrParams { urr_id: 7, ..Default::default() };
    let xr = SessionQos {
        xr_flow: Some(XrSessionFlow { five_qi: 82, gbr_ul_bps: 10_000, gbr_dl_bps: 20_000 }),
        ..qos()
    };
    let v = establishment_request_payload(0x1001, [10, 0, 0, 1], [10, 45, 0, 2], "internet", 1, &xr, Some(urr));
    // The URR leads.
    assert_eq!(&v[..2], &[0x00, 0x06]);
    // The PDRs name the URR and the XR QER (2) with the XR QFI (82 & 0x3F = 18).
    assert!(contains(&v, &[0x00, 0x51, 0x00, 0x04, 0, 0, 0, 7]));
    assert!(contains(&v, &[0x00, 0x6D, 0x00, 0x04, 0, 0, 0, 2]));
    assert!(contains(&v, &[0x00, 0x7C, 0x00, 0x01, 18]));
    let without = establishment_request_payload(0x1001, [10, 0, 0, 1], [10, 45, 0, 2], "internet", 1, &qos(), None);
    assert!(v.len() > without.len());
}

fn tlv(t: u16, v: &[u8]) -> Vec<u8> {
    let mut out = t.to_be_bytes().to_vec();
    out.extend_from_slice(&(v.len() as u16).to_be_bytes());
    out.extend_from_slice(v);
    out
}

#[test]
fn test_establishment_result_reads_seid_teid_and_address() {
    let mut body = tlv(19, &[1]);
    let mut fseid = vec![0x02];
    fseid.extend_from_slice(&0xABCDu64.to_be_bytes());
    fseid.extend_from_slice(&[172, 23, 0, 7]);
    body.extend(tlv(57, &fseid));
    let mut fteid = vec![0x01];
    fteid.extend_from_slice(&0x10001u32.to_be_bytes());
    fteid.extend_from_slice(&[172, 23, 0, 8]);
    let created = [tlv(56, &[0, 1]), tlv(21, &fteid)].concat();
    body.extend(tlv(8, &created));

    let r = establishment_result(51, &body).expect("accepted");
    assert_eq!(r.upf_seid, 0xABCD);
    assert_eq!(r.upf_teid, 0x10001);
    assert_eq!(r.upf_addr, [172, 23, 0, 8]);
}

#[test]
fn test_establishment_result_errors() {
    let accepted = tlv(19, &[1]);
    assert_eq!(establishment_result(53, &accepted).unwrap_err(), N4ResponseError::UnexpectedType(53));
    assert_eq!(establishment_result(51, &tlv(19, &[73])).unwrap_err(), N4ResponseError::Rejected(73));
    assert_eq!(establishment_result(51, &[]).unwrap_err(), N4ResponseError::MissingCause);
    assert_eq!(establishment_result(51, &accepted).unwrap_err(), N4ResponseError::MissingUpFSeid);
    let mut fseid = vec![0x00];
    fseid.extend_from_slice(&5u64.to_be_bytes());
    let body = [accepted.clone(), tlv(57, &fseid)].concat();
    assert_eq!(establishment_result(51, &body).unwrap_err(), N4ResponseError::MissingCreatedFTeid);
    // Without an address the UPF is taken to be on the loopback address.
    let created = tlv(21, &[0x00, 0, 0, 0, 9]);
    let body = [accepted, tlv(57, &fseid), tlv(8, &created)].concat();
    let r = establishment_result(51, &body).unwrap();
    assert_eq!(r.upf_addr, [127, 0, 0, 1]);
    assert_eq!(r.upf_teid, 9);
}

#[test]
fn test_cause_checks() {
    assert_eq!(pfcp_cause(&tlv(19, &[64])), Some(64));
    assert_eq!(pfcp_cause(&tlv(19, &[])), None);
    assert_eq!(check_session_response(55, 55, &tlv(19, &[1])), Ok(()));
    assert_eq!(check_session_response(55, 55, &tlv(19, &[65])), Err(N4ResponseError::Rejected(65)));
}

#[test]
fn test_modification_payloads() {
    let v = dl_far_activation_payload(0x1234, [172, 23, 0, 100]);
    let ohc = [0x01, 0x00, 0x00, 0x00, 0x12, 0x34, 172, 23, 0, 100];
    let fp = [tlv(42, &[0]), tlv(84, &ohc)].concat();
    let far = [tlv(108, &[0, 0, 0, 2]), tlv(44, &[0x00, 0x02]), tlv(11, &fp)].concat();
    let expected = [tlv(49, &[0x02]), tlv(10, &far)].concat();
    assert_eq!(v, expected);

    let v = dl_far_deactivation_payload();
    assert_eq!(&v[..2], &[0x00, 0x0A]);
    assert!(contains(&v, &tlv(108, &[0, 0, 0, 2])));

    let v = session_qer_update_payload(9, 1000, 2000);
    assert_eq!(&v[..2], &[0x00, 0x0E]);
    assert!(contains(&v, &tlv(124, &[9])));
}

#[test]
fn test_classify_sm_context_update() {
    assert_eq!(classify_sm_context_update("PDU_RES_SETUP_RSP", ""), SmContextUpdateAction::ActivateDownlink { path_switch: false });
    assert_eq!(classify_sm_context_update("PATH_SWITCH_REQ", ""), SmContextUpdateAction::ActivateDownlink { path_switch: true });
    assert_eq!(classify_sm_context_update("PDU_RES_SETUP_FAIL", ""), SmContextUpdateAction::AnResourceFailure);
    assert_eq!(classify_sm_context_update("PATH_SWITCH_SETUP_FAIL", ""), SmContextUpdateAction::AnResourceFailure);
    assert_eq!(classify_sm_context_update("HANDOVER_RES_ALLOC_FAIL", ""), SmContextUpdateAction::AnResourceFailure);
    assert_eq!(classify_sm_context_update("PDU_RES_MOD_REQ", ""), SmContextUpdateAction::UeModification);
    assert_eq!(classify_sm_context_update("PDU_RES_MOD_RSP", ""), SmContextUpdateAction::Acknowledge);
    assert_eq!(classify_sm_context_update("PDU_RES_REL_RSP", ""), SmContextUpdateAction::Acknowledge);
    assert_eq!(classify_sm_context_update("SECONDARY_RAT_USAGE", ""), SmContextUpdateAction::Acknowledge);
    assert_eq!(classify_sm_context_update("", "DEACTIVATED"), SmContextUpdateAction::DeactivateUpConnection);
    assert_eq!(classify_sm_context_update("", "ACTIVATING"), SmContextUpdateAction::ConfirmActivation);
    assert_eq!(classify_sm_context_update("", ""), SmContextUpdateAction::ConfirmActivation);
    assert_eq!(classify_sm_context_update("HANDOVER_CMD", "DEACTIVATED"), SmContextUpdateAction::Unsupported);
}

#[test]
fn test_upf_establishment_response_reads_back_at_smf() {
    let created = vec![CreatedPdr {
        pdr_id: 1,
        local_f_teid: Some(FTeid { teid: 0x10001, ipv4: Some([172, 23, 0, 7]), ipv6: None, choose: false, choose_id: None }),
        ue_ip_address: None,
    }];
    let body = build_session_establishment_response(
        51,
        0x99,
        &NodeId::Ipv4([172, 23, 0, 7]),
        &FSeid { seid: 0x99, ipv4: Some([172, 23, 0, 7]), ipv6: None },
        &created,
    );
    let r = establishment_result(51, &body).expect("accepted");
    assert_eq!(r.upf_seid, 0x99);
    assert_eq!(r.upf_teid, 0x10001);
    assert_eq!(r.upf_addr, [172, 23, 0, 7]);
}

#[test]
fn test_smf_f_teid_and_f_seid_read_back_at_upf() {
    let mut b = PfcpMessageBuilder::new();
    b.add_f_teid(0xCAFE, Some([10, 0, 0, 9]), Some([7u8; 16]), None);
    let v = b.build();
    let t = ParsedFTeid::parse(&v[4..]).unwrap();
    assert!(!t.ch);
    assert_eq!(t.teid, 0xCAFE);
    assert_eq!(t.ipv4, Some([10, 0, 0, 9]));
    assert_eq!(t.ipv6, Some([7u8; 16]));

    let mut b = PfcpMessageBuilder::new();
    b.add_f_seid(0x0102_0304_0506_0708, Some([10, 0, 0, 1]), None);
    let v = b.build();
    let s = ParsedFSeid::parse(&v[4..]).unwrap();
    assert_eq!(s.seid, 0x0102_0304_0506_0708);
    assert_eq!(s.ipv4, Some([10, 0, 0, 1]));
    assert!(s.ipv6.is_none());
}

#[test]
fn test_smf_ue_ip_reads_back_at_upf() {
    let mut b = PfcpMessageBuilder::new();
    b.add_ue_ip_address(Some([10, 45, 0, 2]), None, false, true);
    let v = b.build();
    let u = ParsedUeIpAddr::parse(&v[4..]).unwrap();
    assert_eq!(u.ipv4, Some([10, 45, 0, 2]));
    assert!(u.ipv6.is_none());
    assert!(u.destination);
    assert!(!u.source);
    assert_eq!(u.ipv6_prefix_len, 0);

    let mut b = PfcpMessageBuilder::new();
    b.add_ue_ip_address(Some([10, 45, 0, 3]), Some([0x20u8; 16]), true, false);
    let v = b.build();
    let u = ParsedUeIpAddr::parse(&v[4..]).unwrap();
    assert_eq!(u.ipv4, Some([10, 45, 0, 3]));
    assert_eq!(u.ipv6, Some([0x20u8; 16]));
    assert!(u.source);
    assert!(!u.destination);
    assert_eq!(u.ipv6_prefix_len, 64);
}

#[test]
fn test_smf_qer_reads_back_at_upf() {
    let q = QerParams { qer_id: 2, gate_status: (0, 1), mbr: Some((100_000_001, 200_000_000)), gbr: Some((1_500, 0)), qfi: Some(9) };
    let r = parse_create_qer(&build_create_qer(&q)).unwrap();
    assert_eq!(r.qer_id, 2);
    assert_eq!(r.dl_gate, 0);
    assert_eq!(r.ul_gate, 1);
    assert_eq!(r.ul_mbr, 100_001_000);
    assert_eq!(r.dl_mbr, 200_000_000);
    assert_eq!(r.ul_gbr, 2_000);
    assert_eq!(r.dl_gbr, 0);
    assert_eq!(r.qfi, Some(9));

    let q = QerParams { qer_id: 7, gate_status: (1, 1), mbr: None, gbr: None, qfi: None };
    let r = parse_create_qer(&build_create_qer(&q)).unwrap();
    assert_eq!((r.qer_id, r.dl_gate, r.ul_gate, r.ul_mbr, r.dl_mbr, r.qfi), (7, 1, 1, 0, 0, None));
}
