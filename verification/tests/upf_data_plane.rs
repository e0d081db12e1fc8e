use nextgcore::dp_manager::SessionManager;
use nextgcore::dp_rules::{
    DataPlaneBar, DataPlaneFar, DataPlanePdr, DataPlaneQer, FarDecision, PacketTuple, SdfRule,
    DEFAULT_DL_BUFFER_PACKETS, FAR_ACTION_BUFF, FAR_ACTION_DROP, FAR_ACTION_FORW, FAR_ACTION_NOCP,
    SRC_INTF_ACCESS, SRC_INTF_CORE,
};
use nextgcore::dp_session::{DataPlaneSession, PeerAddr, QerGate};
use nextgcore::dp_urr::DataPlaneUrr;
use nextgcore::gtpu::gtpu_msg_type;
use nextgcore::gtpu::{
    build_gtpu_echo_request, build_gtpu_echo_response, build_gtpu_end_marker,
    build_gtpu_error_indication, build_gtpu_header, build_gtpu_header_with_qfi,
    build_gtpu_header_with_seq, decap_gtp, encap_gtp, encapsulate_dl_gpdu,
    extract_qfi_from_gtp_header, parse_gtpu_error_indication, parse_gtpu_header,
    parse_gtpu_recovery_ie, GTPU_IE_RECOVERY,
};
use nextgcore::gtpu_path::GtpuPathTable;
use nextgcore::ip_qos::{
    apply_dscp_to_ip_packet, ipv4_header_checksum, ipv4_header_checksum_valid, is_xr_5qi,
    mark_dscp, qfi_to_dscp,
};

fn peer(ip: [u8; 4], port: u16) -> PeerAddr {
    PeerAddr { ip, port }
}

#[test]
fn test_build_gtpu_header() {
    let header = build_gtpu_header(0x12345678, 100);
    assert_eq!(header[0], 0x30);
    assert_eq!(header[1], 255);
    assert_eq!(u16::from_be_bytes([header[2], header[3]]), 100);
    assert_eq!(u32::from_be_bytes([header[4], header[5], header[6], header[7]]), 0x12345678);
}

#[test]
fn test_build_gtpu_header_with_seq() {
    let header = build_gtpu_header_with_seq(0xABCDEF01, 200, 1234);
    assert_eq!(header[0], 0x32);
    assert_eq!(header[1], 255);
    assert_eq!(u16::from_be_bytes([header[2], header[3]]), 204);
    assert_eq!(u32::from_be_bytes([header[4], header[5], header[6], header[7]]), 0xABCDEF01);
    assert_eq!(u16::from_be_bytes([header[8], header[9]]), 1234);
}

#[test]
fn test_session_manager() {
    let mut mgr = SessionManager::new();

    let teid1 = mgr.allocate_teid();
    let teid2 = mgr.allocate_teid();
    assert_ne!(teid1, teid2);

    let seid1 = mgr.allocate_seid();
    let seid2 = mgr.allocate_seid();
    assert_ne!(seid1, seid2);

    let session = DataPlaneSession::new_empty(
        seid1,
        0x1000,
        Some([10, 45, 0, 2]),
        teid1,
        100,
        peer([192, 168, 1, 1], 2152),
        Some(1),
        Some(9),
    );
    mgr.add_session(session);

    assert!(mgr.find_by_seid(seid1).is_some());
    assert!(mgr.find_by_ul_teid(teid1).is_some());
    assert!(mgr.find_by_ue_ip([10, 45, 0, 2]).is_some());
    assert!(mgr.find_by_ul_teid(9999).is_none());
    assert_eq!(mgr.seid_by_ul_teid(teid1), Some(seid1));
    assert_eq!(mgr.seid_by_ue_ip([10, 45, 0, 2]), Some(seid1));
    assert!(mgr.find_by_dl_teid(100).is_some());
    assert_eq!(mgr.session_count(), 1);

    assert!(mgr.remove_session_by_seid(seid1));
    assert!(mgr.find_by_seid(seid1).is_none());
    assert!(mgr.find_by_ul_teid(teid1).is_none());
    assert!(mgr.find_by_ue_ip([10, 45, 0, 2]).is_none());
    assert!(!mgr.remove_session_by_seid(seid1));
    assert_eq!(mgr.session_count(), 0);
}

fn make_ipv4_tcp_packet(src: [u8; 4], dst: [u8; 4], src_port: u16, dst_port: u16) -> Vec<u8> {
    let mut pkt = vec![0u8; 40];
    pkt[0] = 0x45;
    pkt[9] = 6;
    pkt[12..16].copy_from_slice(&src);
    pkt[16..20].copy_from_slice(&dst);
    pkt[20] = (src_port >> 8) as u8;
    pkt[21] = (src_port & 0xFF) as u8;
    pkt[22] = (dst_port >> 8) as u8;
    pkt[23] = (dst_port & 0xFF) as u8;
    pkt
}

fn make_ipv4_udp_packet(src: [u8; 4], dst: [u8; 4], src_port: u16, dst_port: u16) -> Vec<u8> {
    let mut pkt = make_ipv4_tcp_packet(src, dst, src_port, dst_port);
    pkt[9] = 17;
    pkt
}

#[test]
fn test_packet_tuple_from_valid_tcp_packet() {
    let pkt = make_ipv4_tcp_packet([10, 45, 0, 2], [172, 23, 0, 1], 12345, 80);
    let tuple = PacketTuple::from_ipv4_packet(&pkt).unwrap();
    assert_eq!(tuple.src_ip, u32::from_be_bytes([10, 45, 0, 2]));
    assert_eq!(tuple.dst_ip, u32::from_be_bytes([172, 23, 0, 1]));
    assert_eq!(tuple.protocol, 6);
    assert_eq!(tuple.src_port, 12345);
    assert_eq!(tuple.dst_port, 80);
}

#[test]
fn test_packet_tuple_from_valid_udp_packet() {
    let pkt = make_ipv4_udp_packet([10, 0, 0, 1], [10, 0, 0, 2], 5060, 5060);
    let tuple = PacketTuple::from_ipv4_packet(&pkt).unwrap();
    assert_eq!(tuple.protocol, 17);
    assert_eq!(tuple.src_port, 5060);
    assert_eq!(tuple.dst_port, 5060);
}

#[test]
fn test_packet_tuple_from_icmp_has_zero_ports() {
    let mut pkt = make_ipv4_tcp_packet([10, 0, 0, 1], [10, 0, 0, 2], 0, 0);
    pkt[9] = 1;
    let tuple = PacketTuple::from_ipv4_packet(&pkt).unwrap();
    assert_eq!(tuple.protocol, 1);
    assert_eq!(tuple.src_port, 0);
    assert_eq!(tuple.dst_port, 0);
}

#[test]
fn test_packet_tuple_too_short_returns_none() {
    let pkt = vec![0x45, 0, 0, 0];
    assert!(PacketTuple::from_ipv4_packet(&pkt).is_none());
    assert!(PacketTuple::from_ipv4_packet(&[]).is_none());
}

#[test]
fn test_packet_tuple_with_ip_options() {
    let mut pkt = vec![0u8; 48];
    pkt[0] = 0x47;
    pkt[9] = 6;
    pkt[12..16].copy_from_slice(&[10, 0, 0, 1]);
    pkt[16..20].copy_from_slice(&[10, 0, 0, 2]);
    pkt[28] = 0x30;
    pkt[29] = 0x39;
    pkt[30] = 0x00;
    pkt[31] = 0x50;
    let tuple = PacketTuple::from_ipv4_packet(&pkt).unwrap();
    assert_eq!(tuple.src_port, 12345);
    assert_eq!(tuple.dst_port, 80);
}

#[test]
fn test_matches_rule_protocol_mismatch() {
    let tuple = PacketTuple { src_ip: 0x0a000001, dst_ip: 0x0a000002, protocol: 6, src_port: 1000, dst_port: 80 };
    let rule = SdfRule { proto: 17, ..Default::default() };
    assert!(!tuple.matches_rule(&rule));
}

#[test]
fn test_matches_rule_protocol_any_matches_all() {
    let tuple = PacketTuple { src_ip: 0x0a000001, dst_ip: 0x0a000002, protocol: 6, src_port: 1000, dst_port: 80 };
    let rule = SdfRule::default();
    assert!(tuple.matches_rule(&rule));
}

#[test]
fn test_matches_rule_src_ip_subnet() {
    let tuple = PacketTuple {
        src_ip: u32::from_be_bytes([10, 45, 1, 50]),
        dst_ip: u32::from_be_bytes([172, 23, 0, 1]),
        protocol: 17,
        src_port: 5000,
        dst_port: 80,
    };
    let mut rule = SdfRule {
        ipv4_src: true,
        src_addr: u32::from_be_bytes([10, 45, 0, 0]),
        src_mask: u32::from_be_bytes([255, 255, 0, 0]),
        ..Default::default()
    };
    assert!(tuple.matches_rule(&rule), "10.45.1.50 should match 10.45.0.0/16");

    rule.src_addr = u32::from_be_bytes([10, 46, 0, 0]);
    assert!(!tuple.matches_rule(&rule), "10.45.1.50 should not match 10.46.0.0/16");
}

#[test]
fn test_matches_rule_dst_port_range() {
    let tuple = PacketTuple { src_ip: 0, dst_ip: 0, protocol: 17, src_port: 5000, dst_port: 8080 };
    let rule = SdfRule { dst_ports: Some((80, 8080)), ..Default::default() };
    assert!(tuple.matches_rule(&rule));

    let tuple2 = PacketTuple { dst_port: 8081, ..tuple };
    assert!(!tuple2.matches_rule(&rule));

    let tuple3 = PacketTuple { dst_port: 79, ..tuple };
    assert!(!tuple3.matches_rule(&rule));

    let tuple4 = PacketTuple { dst_port: 80, ..tuple };
    assert!(tuple4.matches_rule(&rule));
}

fn make_test_session(pdrs: Vec<DataPlanePdr>) -> DataPlaneSession {
    let mut session = DataPlaneSession::new_empty(
        1,
        1,
        Some([10, 45, 0, 2]),
        1,
        1,
        peer([127, 0, 0, 1], 2152),
        Some(1),
        Some(9),
    );
    session.pdrs = pdrs;
    session
}

fn pdr(pdr_id: u16, precedence: u32, src: u8, far_id: u32, sdf_rule: Option<SdfRule>, qfi: Option<u8>) -> DataPlanePdr {
    DataPlanePdr {
        pdr_id,
        precedence,
        source_interface: src,
        far_id: Some(far_id),
        qer_id: None,
        urr_ids: vec![],
        outer_header_removal: None,
        sdf_rule,
        qfi,
    }
}

#[test]
fn test_match_pdr_wildcard_no_sdf_matches() {
    let session = make_test_session(vec![pdr(1, 100, SRC_INTF_ACCESS, 1, None, None)]);
    let pkt = PacketTuple { src_ip: 0, dst_ip: 0, protocol: 6, src_port: 1, dst_port: 80 };
    let result = session.match_pdr_with_packet(SRC_INTF_ACCESS, Some(&pkt), None);
    assert!(result.is_some());
    assert_eq!(result.unwrap().0, Some(1));
}

#[test]
fn test_match_pdr_sdf_packet_matches() {
    let rule = SdfRule { proto: 17, ..Default::default() };
    let session = make_test_session(vec![pdr(1, 50, SRC_INTF_ACCESS, 10, Some(rule), None)]);
    let pkt = PacketTuple { src_ip: 0, dst_ip: 0, protocol: 17, src_port: 5060, dst_port: 5060 };
    let result = session.match_pdr_with_packet(SRC_INTF_ACCESS, Some(&pkt), None);
    assert!(result.is_some());
    assert_eq!(result.unwrap().0, Some(10));
}

#[test]
fn test_match_pdr_sdf_packet_no_match_skips_to_wildcard() {
    let rule = SdfRule { proto: 17, ..Default::default() };
    let session = make_test_session(vec![
        pdr(1, 50, SRC_INTF_ACCESS, 10, Some(rule), None),
        pdr(2, 100, SRC_INTF_ACCESS, 20, None, None),
    ]);
    let pkt = PacketTuple { src_ip: 0, dst_ip: 0, protocol: 6, src_port: 1000, dst_port: 80 };
    let result = session.match_pdr_with_packet(SRC_INTF_ACCESS, Some(&pkt), None);
    assert!(result.is_some());
    assert_eq!(result.unwrap().0, Some(20));
}

#[test]
fn test_match_pdr_precedence_order() {
    let session = make_test_session(vec![
        pdr(2, 100, SRC_INTF_ACCESS, 20, None, None),
        pdr(1, 50, SRC_INTF_ACCESS, 10, None, None),
    ]);
    let result = session.match_pdr_with_packet(SRC_INTF_ACCESS, None, None);
    assert!(result.is_some());
    assert_eq!(result.unwrap().0, Some(20));
}

#[test]
fn test_match_pdr_wrong_source_interface_no_match() {
    let session = make_test_session(vec![pdr(1, 100, SRC_INTF_ACCESS, 1, None, None)]);
    let result = session.match_pdr_with_packet(SRC_INTF_CORE, None, None);
    assert!(result.is_none());
}

fn far(far_id: u32, apply_action: u16, ohc_teid: Option<u32>, ohc_addr: Option<[u8; 4]>, bar_id: Option<u8>) -> DataPlaneFar {
    DataPlaneFar { far_id, apply_action, destination_interface: SRC_INTF_ACCESS, ohc_teid, ohc_addr, bar_id }
}

#[test]
fn test_apply_far_drop_action() {
    let mut session = make_test_session(vec![]);
    session.fars.insert(1, far(1, FAR_ACTION_DROP, None, None, None));
    assert_eq!(session.apply_far(1), FarDecision::Drop);
}

#[test]
fn test_apply_far_forward_action() {
    let mut session = make_test_session(vec![]);
    session.fars.insert(1, far(1, FAR_ACTION_FORW, Some(0x1234), Some([192, 168, 1, 1]), None));
    assert_eq!(
        session.apply_far(1),
        FarDecision::Forward { ohc_teid: Some(0x1234), ohc_addr: Some([192, 168, 1, 1]) }
    );
}

#[test]
fn test_apply_far_not_found_drops() {
    let session = make_test_session(vec![]);
    assert_eq!(session.apply_far(999), FarDecision::Drop);
}

#[test]
fn test_apply_far_buffer_action() {
    let mut session = make_test_session(vec![]);
    session.fars.insert(2, far(2, FAR_ACTION_BUFF | FAR_ACTION_NOCP, None, None, Some(1)));
    assert_eq!(session.apply_far(2), FarDecision::Buffer { nocp: true, bar_id: Some(1) });
}

#[test]
fn test_apply_far_drop_wins_over_forward_and_unknown_bits_drop() {
    let mut session = make_test_session(vec![]);
    session.fars.insert(3, far(3, FAR_ACTION_DROP | FAR_ACTION_FORW, None, None, None));
    session.fars.insert(4, far(4, 0x0400, None, None, None));
    assert_eq!(session.apply_far(3), FarDecision::Drop);
    assert_eq!(session.apply_far(4), FarDecision::Drop);
}

#[test]
fn test_downlink_core_pdr_match_and_gtpu_encap() {
    let gnb = [172u8, 23, 0, 100];
    let dl_teid: u32 = 0x1;

    let mut session = make_test_session(vec![pdr(2, 100, SRC_INTF_CORE, 2, None, None)]);
    session.fars.insert(2, far(2, FAR_ACTION_FORW, Some(dl_teid), Some(gnb), None));

    let mut dl_pkt = make_ipv4_tcp_packet([10, 45, 0, 1], [10, 45, 0, 2], 0, 0);
    dl_pkt[9] = 1;
    let tuple = PacketTuple::from_ipv4_packet(&dl_pkt);

    let matched = session.match_pdr_with_packet(SRC_INTF_CORE, tuple.as_ref(), None);
    let (far_id, _qer, _urr, _ohr) = matched.expect("downlink Core PDR must match the UE-destined packet");
    assert_eq!(far_id, Some(2));

    let (teid, addr) = match session.apply_far(far_id.unwrap()) {
        FarDecision::Forward { ohc_teid, ohc_addr } => {
            (ohc_teid.unwrap_or(session.dl_teid), ohc_addr.unwrap_or(gnb))
        }
        other => panic!("expected Forward, got {other:?}"),
    };
    assert_eq!(teid, dl_teid);
    assert_eq!(addr, gnb);

    let gpdu = encapsulate_dl_gpdu(&dl_pkt, teid, Some(9));
    let parsed = parse_gtpu_header(&gpdu).expect("encapsulated G-PDU must parse");
    assert_eq!(parsed.msg_type, gtpu_msg_type::GPDU);
    assert_eq!(parsed.teid, dl_teid);
    assert_eq!(&gpdu[parsed.header_len..], &dl_pkt[..]);
}

#[test]
fn test_downlink_does_not_match_access_pdr() {
    let session = make_test_session(vec![pdr(2, 100, SRC_INTF_CORE, 2, None, None)]);
    assert!(session.match_pdr_with_packet(SRC_INTF_ACCESS, None, None).is_none());
    assert!(session.match_pdr_with_packet(SRC_INTF_CORE, None, None).is_some());
}

#[test]
fn test_dl_buffer_enqueue_and_drain() {
    let mut session = make_test_session(vec![]);
    let (buffered, first) = session.buffer_dl_packet(vec![1, 2, 3], None);
    assert!(buffered);
    assert!(first, "first packet must start a buffering episode");
    let (buffered2, first2) = session.buffer_dl_packet(vec![4, 5, 6], None);
    assert!(buffered2);
    assert!(!first2, "subsequent packets must not re-trigger DDN");

    let pkts = session.drain_dl_buffer();
    assert_eq!(pkts.len(), 2);
    assert_eq!(pkts[0], vec![1, 2, 3]);

    let (_, first3) = session.buffer_dl_packet(vec![7], None);
    assert!(first3);
}

#[test]
fn test_dl_buffer_overflow_respects_bar_count() {
    let mut session = make_test_session(vec![]);
    session.bars.insert(
        1,
        DataPlaneBar { bar_id: 1, suggested_buffering_packets_count: Some(2), ddn_delay: None },
    );
    assert!(session.buffer_dl_packet(vec![1], Some(1)).0);
    assert!(session.buffer_dl_packet(vec![2], Some(1)).0);
    assert!(!session.buffer_dl_packet(vec![3], Some(1)).0);
    assert_eq!(session.dl_buffer.len(), 2);
}

#[test]
fn test_dl_buffer_default_capacity() {
    let session = make_test_session(vec![]);
    assert_eq!(session.dl_buffer_capacity(None), DEFAULT_DL_BUFFER_PACKETS);
    assert_eq!(
        session.dl_buffer_capacity(Some(9)),
        DEFAULT_DL_BUFFER_PACKETS,
        "unknown BAR id falls back to default"
    );
}

#[test]
fn test_qer_gate_states() {
    let mut session = make_test_session(vec![]);
    assert_eq!(session.check_qer_gate(7, true), QerGate::NoQer);
    let mut qer = DataPlaneQer::new(7);
    qer.ul_gate_open = false;
    session.qers.insert(7, qer);
    assert_eq!(session.check_qer_gate(7, true), QerGate::Closed);
    assert_eq!(session.check_qer_gate(7, false), QerGate::Open);
}

#[test]
fn test_qer_xr_qfi_flags_and_dscp() {
    let mut xr = DataPlaneQer::new(2);
    xr.set_qfi(82);
    assert!(xr.is_xr);
    assert_eq!(xr.dscp, 46);
    let mut xr_split = DataPlaneQer::new(3);
    xr_split.set_qfi(84);
    assert!(xr_split.is_xr);
    assert_eq!(xr_split.dscp, 34);

    let mut be = DataPlaneQer::new(1);
    be.set_qfi(9);
    assert!(!be.is_xr);
    assert!(is_xr_5qi(85));
    assert!(!is_xr_5qi(9));
}

#[test]
fn test_qer_with_gbr_is_xr_and_gets_ef() {
    let mut q = DataPlaneQer::new(4);
    q.set_gbr(500, 500);
    q.set_qfi(9);
    assert!(q.is_xr);
    // QFI 9 maps to DSCP 0, so the GBR (XR) flow is marked EF.
    assert_eq!(q.dscp, 46);
    assert_eq!(q.ul_gbr, 500);
}

#[test]
fn test_match_pdr_qfi_mismatch_skips_pdr() {
    let session = make_test_session(vec![
        pdr(1, 50, SRC_INTF_ACCESS, 10, None, Some(5)),
        pdr(2, 100, SRC_INTF_ACCESS, 20, None, None),
    ]);
    let result = session.match_pdr_with_packet(SRC_INTF_ACCESS, None, Some(9));
    assert_eq!(result.unwrap().0, Some(20));
    let result = session.match_pdr_with_packet(SRC_INTF_ACCESS, None, Some(5));
    assert_eq!(result.unwrap().0, Some(10));
}

#[test]
fn test_match_pdr_sdf_rule_requires_packet_info() {
    let rule = SdfRule { proto: 17, ..Default::default() };
    let session = make_test_session(vec![pdr(1, 50, SRC_INTF_ACCESS, 10, Some(rule), None)]);
    assert!(session.match_pdr_with_packet(SRC_INTF_ACCESS, None, None).is_none());
}

#[test]
fn test_build_gtpu_header_with_qfi_layout() {
    let hdr = build_gtpu_header_with_qfi(0xAABBCCDD, 100, 9);
    assert_eq!(hdr[0], 0x34, "version=1, PT=1, E=1");
    assert_eq!(hdr[1], 255, "G-PDU");
    assert_eq!(u16::from_be_bytes([hdr[2], hdr[3]]), 108);
    assert_eq!(u32::from_be_bytes([hdr[4], hdr[5], hdr[6], hdr[7]]), 0xAABBCCDD);
    assert_eq!(hdr[11], 0x85, "next ext type = PDU Session Container");
    assert_eq!(hdr[12], 1);
    assert_eq!(hdr[13] >> 4, 0, "PDU type 0 = DL");
    assert_eq!(hdr[14] & 0x3F, 9, "QFI");
    assert_eq!(hdr[15], 0, "no more extension headers");
    assert_eq!(extract_qfi_from_gtp_header(&hdr), Some(9));
}

#[test]
fn test_encapsulate_dl_gpdu_with_and_without_qfi() {
    let inner = vec![0x45u8; 20];
    let with_qfi = encapsulate_dl_gpdu(&inner, 1, Some(9));
    assert_eq!(with_qfi[0], 0x34);
    assert_eq!(extract_qfi_from_gtp_header(&with_qfi), Some(9));
    assert_eq!(&with_qfi[16..], &inner[..]);

    let without = encapsulate_dl_gpdu(&inner, 1, None);
    assert_eq!(without[0], 0x30);
    assert_eq!(&without[8..], &inner[..]);
}

#[test]
fn test_error_indication_roundtrip() {
    let pkt = build_gtpu_error_indication(0x12345678, [10, 0, 0, 4]);
    assert_eq!(pkt[0], 0x32, "S flag must be set");
    assert_eq!(pkt[1], 26, "Error Indication message type");
    assert_eq!(u32::from_be_bytes([pkt[4], pkt[5], pkt[6], pkt[7]]), 0);
    let (teid, peer_addr) = parse_gtpu_error_indication(&pkt[12..]).unwrap();
    assert_eq!(teid, 0x12345678);
    assert_eq!(peer_addr, Some([10, 0, 0, 4]));
}

#[test]
fn test_error_indication_missing_teid_rejected() {
    let mut payload = vec![133u8];
    payload.extend_from_slice(&4u16.to_be_bytes());
    payload.extend_from_slice(&[10, 0, 0, 1]);
    assert!(parse_gtpu_error_indication(&payload).is_none());
}

#[test]
fn test_end_marker_layout() {
    let pkt = build_gtpu_end_marker(0xCAFEBABE);
    assert_eq!(pkt.len(), 8);
    assert_eq!(pkt[0], 0x30);
    assert_eq!(pkt[1], 254, "End Marker message type");
    assert_eq!(u16::from_be_bytes([pkt[2], pkt[3]]), 0);
    assert_eq!(u32::from_be_bytes([pkt[4], pkt[5], pkt[6], pkt[7]]), 0xCAFEBABE);
}

#[test]
fn test_ur_seqn_monotonic() {
    let mut urr = DataPlaneUrr::new(1, 0);
    assert_eq!(urr.next_ur_seqn(), 0);
    assert_eq!(urr.next_ur_seqn(), 1);
    assert_eq!(urr.next_ur_seqn(), 2);
}

#[test]
fn test_periodic_urr_defaults_to_trigger_disabled() {
    let urr = DataPlaneUrr::new(1, 0);
    assert!(!urr.trigger_periodic);
    assert!(urr.measurement_period_secs.is_none());
}

#[test]
fn test_urr_threshold_does_not_exhaust_volume_quota() {
    let mut urr = DataPlaneUrr::new(1, 0);
    urr.volume_threshold_total = Some(50);
    urr.volume_quota_total = Some(100);

    assert!(!urr.record(50, true, 0));
    assert!(urr.threshold_exceeded);
    assert!(!urr.quota_exhausted);

    assert!(urr.record(50, true, 0));
    assert!(urr.quota_exhausted);
    // Once the quota is used up every packet is refused and nothing counts.
    assert!(urr.record(10, false, 0));
    assert_eq!(urr.acc_total_bytes, 100);
}

#[test]
fn test_urr_time_quota_exhaustion() {
    let mut urr = DataPlaneUrr::new(1, 0);
    urr.time_quota_secs = Some(60);
    urr.last_report_time = Some(0);

    assert!(urr.record(1, true, 60));
    assert!(urr.quota_exhausted);
}

#[test]
fn test_urr_reset_counters_clears_flags() {
    let mut urr = DataPlaneUrr::new(1, 0);
    urr.volume_quota_total = Some(10);
    assert!(urr.record(10, false, 5));
    urr.reset_counters(7);
    assert!(!urr.quota_exhausted);
    assert!(!urr.threshold_exceeded);
    assert_eq!(urr.acc_total_bytes, 0);
    assert_eq!(urr.last_report_time, Some(7));
    assert!(!urr.record(1, false, 8));
}

#[test]
fn test_extract_qfi_no_e_flag() {
    let pkt = vec![0x30u8, 0xFF, 0x00, 0x14, 0x00, 0x00, 0x00, 0x01, 0xAA, 0xBB, 0xCC, 0xDD];
    assert_eq!(extract_qfi_from_gtp_header(&pkt), None);
}

#[test]
fn test_extract_qfi_with_pdu_session_container() {
    let pkt = vec![
        0x34u8, 0xFF, 0x00, 0x18, 0x00, 0x00, 0x00, 0x01, 0x00, 0x00, 0x00, 0x85, 0x01, 0x00, 0x09, 0x00,
    ];
    assert_eq!(extract_qfi_from_gtp_header(&pkt), Some(9));
}

#[test]
fn test_extract_qfi_too_short() {
    let pkt = vec![0x34u8, 0xFF, 0x00];
    assert_eq!(extract_qfi_from_gtp_header(&pkt), None);
}

#[test]
fn test_extract_qfi_unknown_extension_type() {
    let pkt = vec![
        0x34u8, 0xFF, 0x00, 0x10, 0x00, 0x00, 0x00, 0x01, 0x00, 0x00, 0x00, 0x01, 0x01, 0x00, 0x00, 0x00,
    ];
    assert_eq!(extract_qfi_from_gtp_header(&pkt), None);
}

#[test]
fn test_mark_dscp_ipv4() {
    let mut pkt = vec![0x45u8, 0x00];
    pkt.extend_from_slice(&[0u8; 18]);
    mark_dscp(&mut pkt, 46);
    assert_eq!(pkt[1] >> 2, 46);
    assert_eq!(pkt[1] & 0x03, 0);
}

#[test]
fn test_mark_dscp_ipv4_preserves_ecn() {
    let mut pkt = vec![0x45u8, 0x03];
    pkt.extend_from_slice(&[0u8; 18]);
    mark_dscp(&mut pkt, 34);
    assert_eq!(pkt[1] >> 2, 34);
    assert_eq!(pkt[1] & 0x03, 0x03, "ECN bits must be preserved");
}

#[test]
fn test_mark_dscp_too_short_noop() {
    let mut pkt = vec![0x45u8, 0x00, 0x00];
    mark_dscp(&mut pkt, 46);
    assert_eq!(pkt[1], 0x00, "Should not modify too-short packet");
}

#[test]
fn test_apply_dscp_ipv4_recomputes_checksum() {
    let mut pkt = make_ipv4_udp_packet([10, 45, 0, 7], [8, 8, 8, 8], 1234, 53);
    let total_len = pkt.len() as u16;
    pkt[2..4].copy_from_slice(&total_len.to_be_bytes());
    pkt[8] = 64;
    let csum = ipv4_header_checksum(&pkt[..20]);
    pkt[10..12].copy_from_slice(&csum.to_be_bytes());
    assert!(ipv4_header_checksum_valid(&pkt), "precondition: initial checksum valid");

    assert!(apply_dscp_to_ip_packet(&mut pkt, 46));
    assert_eq!(pkt[1] >> 2, 46, "DSCP set");
    assert!(ipv4_header_checksum_valid(&pkt), "checksum must be recomputed after marking");
    let stored = u16::from_be_bytes([pkt[10], pkt[11]]);
    assert_eq!(ipv4_header_checksum(&pkt[..20]), stored);
}

#[test]
fn test_mark_dscp_keeps_checksum_valid() {
    let mut pkt = make_ipv4_udp_packet([10, 0, 0, 5], [1, 1, 1, 1], 100, 200);
    let total_len = pkt.len() as u16;
    pkt[2..4].copy_from_slice(&total_len.to_be_bytes());
    pkt[8] = 64;
    let csum = ipv4_header_checksum(&pkt[..20]);
    pkt[10..12].copy_from_slice(&csum.to_be_bytes());
    mark_dscp(&mut pkt, 34);
    assert_eq!(pkt[1] >> 2, 34);
    assert!(ipv4_header_checksum_valid(&pkt));
}

#[test]
fn test_qfi_to_dscp_table() {
    assert_eq!(qfi_to_dscp(1), 46);
    assert_eq!(qfi_to_dscp(2), 34);
    assert_eq!(qfi_to_dscp(5), 0);
    assert_eq!(qfi_to_dscp(9), 0);
}

#[test]
fn test_encap_gtp_structure() {
    let inner_ip = vec![0x45u8; 20];
    let teid = 0xDEADBEEF;
    let peer_ip = [192u8, 168, 1, 100];
    let pkt = encap_gtp(&inner_ip, teid, peer_ip);

    assert_eq!(pkt.len(), 56);
    assert_eq!(pkt[0], 0x45);
    assert_eq!(pkt[9], 0x11);
    assert_eq!(&pkt[16..20], &peer_ip);
    let udp_dst = u16::from_be_bytes([pkt[22], pkt[23]]);
    assert_eq!(udp_dst, 2152);
    assert_eq!(pkt[28], 0x30);
    let gtp_teid = u32::from_be_bytes([pkt[32], pkt[33], pkt[34], pkt[35]]);
    assert_eq!(gtp_teid, teid);
}

#[test]
fn test_decap_gtp_basic() {
    let inner_ip = vec![
        0x45u8, 0x00, 0x00, 0x28, 0x00, 0x01, 0x40, 0x00, 0x40, 0x06, 0x00, 0x00, 10, 45, 0, 2, 172, 23, 0, 1,
    ];
    let mut gtp = vec![0x30u8, 0xFF];
    let payload_len = inner_ip.len() as u16;
    gtp.extend_from_slice(&payload_len.to_be_bytes());
    gtp.extend_from_slice(&[0x00, 0x00, 0x01, 0x23]);
    gtp.extend_from_slice(&inner_ip);

    let decapped = decap_gtp(&gtp).unwrap();
    assert_eq!(decapped, inner_ip.as_slice());
}

#[test]
fn test_decap_gtp_non_gpdu_returns_none() {
    let pkt = vec![0x30u8, 0x01, 0x00, 0x00, 0x00, 0x00, 0x00, 0x00];
    assert!(decap_gtp(&pkt).is_none());
}

#[test]
fn test_decap_gtp_too_short_returns_none() {
    let pkt = vec![0x30u8, 0xFF, 0x00];
    assert!(decap_gtp(&pkt).is_none());
}

#[test]
fn test_gtpu_echo_response_has_recovery_ie() {
    let resp = build_gtpu_echo_response(Some(0x1234));
    assert_eq!(resp.len(), 14, "Echo Response must be 14 bytes");
    assert_eq!(resp[1], gtpu_msg_type::ECHO_RESPONSE, "msg type must be ECHO_RESPONSE (2)");
    let length = u16::from_be_bytes([resp[2], resp[3]]);
    assert_eq!(length, 6, "length field must be 6 (4 opt-hdr + 2 Recovery IE)");
    assert_eq!(resp[0] & 0x02, 0x02, "S flag (0x02) must be set");
    let teid = u32::from_be_bytes([resp[4], resp[5], resp[6], resp[7]]);
    assert_eq!(teid, 0, "TEID must be 0 for Echo Response");
    let seq = u16::from_be_bytes([resp[8], resp[9]]);
    assert_eq!(seq, 0x1234, "sequence number must be reflected");
    assert_eq!(resp[12], GTPU_IE_RECOVERY, "IE type must be 14 (Recovery)");
    assert_eq!(resp[13], 0, "restart counter must be 0");
}

#[test]
fn test_gtpu_echo_response_no_seq_uses_s_flag() {
    let resp = build_gtpu_echo_response(None);
    assert_eq!(resp.len(), 14);
    assert_eq!(resp[0] & 0x02, 0x02, "S flag must be set even without inbound seq");
    assert_eq!(&resp[8..10], &[0, 0], "seq must default to 0");
    assert_eq!(resp[12], GTPU_IE_RECOVERY);
}

#[test]
fn test_gtpu_echo_request_layout() {
    let req = build_gtpu_echo_request(0xABCD, 42);
    assert_eq!(req.len(), 14, "Echo Request must be 14 bytes");
    assert_eq!(req[1], gtpu_msg_type::ECHO_REQUEST, "msg type must be ECHO_REQUEST (1)");
    let length = u16::from_be_bytes([req[2], req[3]]);
    assert_eq!(length, 6, "length must be 6");
    assert_eq!(req[0] & 0x02, 0x02, "S flag must be set");
    let teid = u32::from_be_bytes([req[4], req[5], req[6], req[7]]);
    assert_eq!(teid, 0, "TEID must be 0");
    let seq = u16::from_be_bytes([req[8], req[9]]);
    assert_eq!(seq, 0xABCD, "sequence number must be as passed");
    assert_eq!(req[12], GTPU_IE_RECOVERY, "Recovery IE type must be 14");
    assert_eq!(req[13], 42, "restart counter must be as passed");
    // The Recovery IE of a request reads back.
    assert_eq!(parse_gtpu_recovery_ie(&req[12..]), Some(42));
}

#[test]
fn test_path_table_success_resets_miss_count() {
    let p = peer([192, 168, 1, 1], 2152);
    let mut pt = GtpuPathTable::new();
    pt.add_peer(p);

    let (to_send, failed) = pt.tick();
    assert_eq!(to_send.len(), 1);
    assert!(failed.is_empty());

    let restarted = pt.on_echo_response(p, 0, 10);
    assert!(!restarted, "first response must not flag a restart");

    let state = pt.peer_state(&p).unwrap();
    assert_eq!(state.miss_count, 0);
    assert!(state.pending_seq.is_none());
    assert!(!state.path_failed);
    assert_eq!(state.last_success, Some(10));
}

#[test]
fn test_path_table_three_misses_declares_failure() {
    let p = peer([10, 0, 0, 1], 2152);
    let mut pt = GtpuPathTable::new();
    pt.miss_threshold = 3;
    pt.add_peer(p);

    let mut failure_seen = false;
    for i in 0..4 {
        let (_, failed) = pt.tick();
        if !failed.is_empty() {
            assert!(i >= 3, "failure must not be declared before 3 misses");
            failure_seen = true;
            break;
        }
    }
    assert!(failure_seen, "path must be declared failed after 3 missed responses");
    let state = pt.peer_state(&p).unwrap();
    assert!(state.path_failed);
    // A failed path is left alone: no more requests.
    let (to_send, failed) = pt.tick();
    assert!(to_send.is_empty());
    assert!(failed.is_empty());
}

#[test]
fn test_path_table_changed_recovery_detects_restart() {
    let p = peer([10, 0, 0, 2], 2152);
    let mut pt = GtpuPathTable::new();
    pt.add_peer(p);

    let r = pt.on_echo_response(p, 5, 0);
    assert!(!r, "first response is never a restart");

    let r = pt.on_echo_response(p, 6, 1);
    assert!(r, "changed Recovery counter must signal peer restart");

    let r = pt.on_echo_response(p, 6, 2);
    assert!(!r, "same Recovery counter is no restart");
}

#[test]
fn test_path_table_sequence_numbers_advance_and_remove_peer() {
    let a = peer([10, 0, 0, 3], 2152);
    let mut pt = GtpuPathTable::new();
    pt.add_peer(a);
    pt.add_peer(a);
    assert_eq!(pt.peer_count(), 1);
    let (first, _) = pt.tick();
    pt.on_echo_response(a, 1, 0);
    let (second, _) = pt.tick();
    assert_eq!(first.len(), 1);
    assert_eq!(second.len(), 1);
    assert_ne!(first[0].1, 0);
    assert_ne!(second[0].1, first[0].1);
    pt.remove_peer(&a);
    assert_eq!(pt.peer_count(), 0);
    assert!(pt.peer_state(&a).is_none());
}

#[test]
fn test_parse_gtpu_recovery_ie_found() {
    let payload = [GTPU_IE_RECOVERY, 7u8];
    assert_eq!(parse_gtpu_recovery_ie(&payload), Some(7));
}

#[test]
fn test_parse_gtpu_recovery_ie_absent_returns_none() {
    let payload = [0x01u8, 0x00];
    assert_eq!(parse_gtpu_recovery_ie(&payload), None);
}

fn make_gpdu_header(teid: u32) -> Vec<u8> {
    let mut pkt = vec![0u8; 28];
    pkt[0] = 0x30;
    pkt[1] = gtpu_msg_type::GPDU;
    pkt[2..4].copy_from_slice(&20u16.to_be_bytes());
    pkt[4..8].copy_from_slice(&teid.to_be_bytes());
    pkt[8] = 0x45;
    pkt[9] = 0;
    pkt[10..12].copy_from_slice(&20u16.to_be_bytes());
    pkt[24..28].copy_from_slice(&[8, 8, 8, 8]);
    pkt[20..24].copy_from_slice(&[10, 45, 0, 2]);
    pkt
}

#[test]
fn test_teid_zero_drops_without_error_indication_marker() {
    let pkt = make_gpdu_header(0);
    let _ = parse_gtpu_recovery_ie(&pkt[12..]);
    let header = parse_gtpu_header(&pkt).unwrap();
    assert_eq!(header.teid, 0, "header.teid must be 0 for TEID=0 guard");
    assert!(header.teid == 0, "TEID==0 means no Error Indication should be sent");
}

#[test]
fn test_nonzero_teid_triggers_error_indication_path() {
    let pkt = make_gpdu_header(0xDEADBEEF);
    let header = parse_gtpu_header(&pkt).unwrap();
    assert_ne!(header.teid, 0, "non-zero TEID must trigger Error Indication path");
}

fn sess(seid: u64, teid: u32, ue: [u8; 4], dl_teid: u32) -> DataPlaneSession {
    DataPlaneSession::new_empty(seid, 0x1000, Some(ue), teid, dl_teid, peer([192, 168, 1, 1], 2152), Some(1), Some(9))
}

#[test]
fn test_session_manager_replaced_session_still_found_by_its_keys() {
    let mut mgr = SessionManager::new();
    mgr.add_session(sess(1, 10, [10, 45, 0, 2], 100));
    mgr.add_session(sess(1, 20, [10, 45, 0, 3], 200));
    // the first session stays behind its own TEID and address
    assert_eq!(mgr.find_by_ul_teid(10).unwrap().dl_teid, 100);
    assert_eq!(mgr.find_by_ue_ip([10, 45, 0, 2]).unwrap().dl_teid, 100);
    // the second one is the session of the table
    assert_eq!(mgr.find_by_ul_teid(20).unwrap().dl_teid, 200);
    assert_eq!(mgr.find_by_seid(1).unwrap().dl_teid, 200);
    assert_eq!(mgr.session_count(), 1);
    assert_eq!(mgr.seid_by_ul_teid(10), None);
    assert_eq!(mgr.seid_by_ul_teid(20), Some(1));
}

#[test]
fn test_session_manager_remove_by_stale_teid_removes_current_session() {
    let mut mgr = SessionManager::new();
    mgr.add_session(sess(1, 10, [10, 45, 0, 2], 100));
    mgr.add_session(sess(1, 20, [10, 45, 0, 3], 200));
    // the entry under TEID 10 finds the first session; removing it takes
    // the table's session under that session's SEID and the first
    // session's address entry
    mgr.remove_session(10);
    assert!(mgr.find_by_ul_teid(10).is_none());
    assert!(mgr.find_by_seid(1).is_none());
    assert!(mgr.find_by_ue_ip([10, 45, 0, 2]).is_none());
    // the second session's own entries still find it
    assert_eq!(mgr.find_by_ul_teid(20).unwrap().dl_teid, 200);
    assert_eq!(mgr.find_by_ue_ip([10, 45, 0, 3]).unwrap().dl_teid, 200);
    assert_eq!(mgr.session_count(), 0);
}

#[test]
fn test_session_manager_same_teid_readd_keeps_old_address_entry() {
    let mut mgr = SessionManager::new();
    mgr.add_session(sess(1, 10, [10, 45, 0, 2], 100));
    mgr.add_session(sess(1, 10, [10, 45, 0, 3], 200));
    assert_eq!(mgr.find_by_ul_teid(10).unwrap().dl_teid, 200);
    assert_eq!(mgr.find_by_ue_ip([10, 45, 0, 2]).unwrap().dl_teid, 100);
    assert_eq!(mgr.find_by_ue_ip([10, 45, 0, 3]).unwrap().dl_teid, 200);
    assert!(mgr.remove_session_by_seid(1));
    assert!(mgr.find_by_ul_teid(10).is_none());
    assert!(mgr.find_by_ue_ip([10, 45, 0, 3]).is_none());
    assert_eq!(mgr.find_by_ue_ip([10, 45, 0, 2]).unwrap().dl_teid, 100);
}

#[test]
fn test_session_manager_shared_stale_entry_survives_teid_reuse() {
    let mut mgr = SessionManager::new();
    mgr.add_session(sess(1, 10, [10, 45, 0, 2], 100));
    mgr.add_session(sess(1, 20, [10, 45, 0, 3], 200));
    // a new session takes TEID 10; the first session is still found by
    // its address
    mgr.add_session(sess(2, 10, [10, 45, 0, 4], 300));
    assert_eq!(mgr.find_by_ul_teid(10).unwrap().dl_teid, 300);
    assert_eq!(mgr.find_by_ue_ip([10, 45, 0, 2]).unwrap().dl_teid, 100);
}
