use nextgcore::dp_install::PfcpSessionEvent;
use nextgcore::dp_plane::{
    DataPlane, DownlinkDelivery, DownlinkVerdict, DropCause, UplinkDelivery, UplinkVerdict,
    UpfReportEvent,
};
use nextgcore::dp_rules::{FAR_ACTION_BUFF, FAR_ACTION_FORW, FAR_ACTION_NOCP};
use nextgcore::dp_session::PeerAddr;
use nextgcore::gtpu::{
    build_gtpu_echo_request, encapsulate_dl_gpdu, extract_qfi_from_gtp_header,
    parse_gtpu_error_indication, parse_gtpu_header, TUN_MTU,
};
use nextgcore::ip_qos::ipv4_header_checksum;
use nextgcore::upf_rules::{ParsedCreateBar, ParsedCreateFar, ParsedForwardingParameters};

fn make_ipv4_udp_packet(src: [u8; 4], dst: [u8; 4], src_port: u16, dst_port: u16) -> Vec<u8> {
    let mut pkt = vec![0u8; 40];
    pkt[0] = 0x45;
    pkt[9] = 17;
    pkt[12..16].copy_from_slice(&src);
    pkt[16..20].copy_from_slice(&dst);
    pkt[20..22].copy_from_slice(&src_port.to_be_bytes());
    pkt[22..24].copy_from_slice(&dst_port.to_be_bytes());
    pkt
}

fn finalize_ipv4(pkt: &mut [u8]) {
    let len = pkt.len() as u16;
    pkt[2..4].copy_from_slice(&len.to_be_bytes());
    pkt[8] = 64;
    pkt[10..12].copy_from_slice(&[0, 0]);
    let csum = ipv4_header_checksum(&pkt[..20]);
    pkt[10..12].copy_from_slice(&csum.to_be_bytes());
}

const GNB: PeerAddr = PeerAddr { ip: [127, 0, 0, 1], port: 2152 };

fn dp_with_session(upf_seid: u64, ue_ip: [u8; 4], ul_teid: u32, dl_teid: u32) -> DataPlane {
    let mut dp = DataPlane::new();
    dp.local_gtpu_addr = [10, 0, 0, 4];
    dp.add_session_from_pfcp(upf_seid, upf_seid + 0x1000, ue_ip, ul_teid, dl_teid, GNB, Some(1), Some(9));
    dp
}

#[test]
fn test_unknown_teid_triggers_error_indication() {
    let mut dp = DataPlane::new();
    dp.local_gtpu_addr = [10, 0, 0, 4];
    let inner = make_ipv4_udp_packet([10, 45, 0, 9], [8, 8, 8, 8], 1234, 53);
    let gpdu = encapsulate_dl_gpdu(&inner, 0xDEAD, None);
    match dp.handle_uplink_packet(&gpdu, GNB, 0) {
        UplinkVerdict::UnknownTunnel(Some(ei)) => {
            assert_eq!(ei[1], 26, "Error Indication message type");
            let (teid, addr) = parse_gtpu_error_indication(&ei[12..]).unwrap();
            assert_eq!(teid, 0xDEAD, "offending TEID echoed in TEID Data I");
            assert_eq!(addr, Some([10, 0, 0, 4]));
        }
        other => panic!("expected an Error Indication, got {other:?}"),
    }
    assert_eq!(dp.sessions.session_count(), 0);
    assert_eq!(dp.stats.dropped_packets, 1);
}

#[test]
fn test_teid_zero_gpdu_is_dropped_without_error_indication() {
    let mut dp = DataPlane::new();
    let inner = make_ipv4_udp_packet([10, 45, 0, 9], [8, 8, 8, 8], 1234, 53);
    let gpdu = encapsulate_dl_gpdu(&inner, 0, None);
    match dp.handle_uplink_packet(&gpdu, GNB, 0) {
        UplinkVerdict::UnknownTunnel(None) => {}
        other => panic!("expected a silent drop, got {other:?}"),
    }
}

#[test]
fn test_echo_request_is_answered_with_recovery() {
    let mut dp = DataPlane::new();
    let req = build_gtpu_echo_request(0x0102, 3);
    match dp.handle_uplink_packet(&req, GNB, 0) {
        UplinkVerdict::EchoReply(resp) => {
            assert_eq!(resp[1], 2);
            assert_eq!(&resp[8..10], &[0x01, 0x02]);
        }
        other => panic!("expected an Echo Response, got {other:?}"),
    }
}

#[test]
fn test_malformed_gtpu_is_dropped() {
    let mut dp = DataPlane::new();
    match dp.handle_uplink_packet(&[0x30, 0xFF, 0x00], GNB, 0) {
        UplinkVerdict::Dropped(DropCause::Malformed) => {}
        other => panic!("expected a drop, got {other:?}"),
    }
    assert_eq!(dp.stats.dropped_packets, 1);
}

#[test]
fn test_ul_source_spoofing_dropped() {
    let ue_ip = [10, 45, 0, 7];
    let mut dp = dp_with_session(0x55, ue_ip, 0x100, 0x200);
    let mut inner = make_ipv4_udp_packet([10, 45, 0, 99], [8, 8, 8, 8], 1234, 53);
    finalize_ipv4(&mut inner);
    let gpdu = encapsulate_dl_gpdu(&inner, 0x100, None);
    match dp.handle_uplink_packet(&gpdu, GNB, 0) {
        UplinkVerdict::Dropped(DropCause::Spoofed) => {}
        other => panic!("expected a spoofing drop, got {other:?}"),
    }
    assert_eq!(dp.stats.spoofed_packets, 1, "spoofed packet must be counted");
    assert_eq!(dp.stats.dropped_packets, 1, "spoofed packet must be dropped");
    assert_eq!(dp.stats.ul_packets, 0, "spoofed packet must not be forwarded");
}

#[test]
fn test_ul_legitimate_source_not_spoofed() {
    let ue_ip = [10, 45, 0, 7];
    let mut dp = dp_with_session(0x55, ue_ip, 0x100, 0x200);
    let mut inner = make_ipv4_udp_packet(ue_ip, [8, 8, 8, 8], 1234, 53);
    finalize_ipv4(&mut inner);
    let gpdu = encapsulate_dl_gpdu(&inner, 0x100, None);
    let acc = match dp.handle_uplink_packet(&gpdu, GNB, 0) {
        UplinkVerdict::Accepted(a) => a,
        other => panic!("expected the packet to be accepted, got {other:?}"),
    };
    assert_eq!(dp.stats.spoofed_packets, 0, "legitimate source must not be flagged as spoofed");
    assert_eq!(acc.upf_seid, 0x55);
    match dp.commit_uplink(&acc, &gpdu, true, 0) {
        UplinkDelivery::Write(p) => assert_eq!(p, inner),
        other => panic!("expected a TUN write, got {other:?}"),
    }
    dp.note_uplink_written(0x55, inner.len() as u64);
    assert_eq!(dp.stats.ul_packets, 1);
    assert_eq!(dp.get_session_stats(0x55).unwrap().0, 1);
}

#[test]
fn test_ul_rate_verdict_ignored_without_qer() {
    let ue_ip = [10, 45, 0, 7];
    let mut dp = dp_with_session(0x55, ue_ip, 0x100, 0x200);
    let mut inner = make_ipv4_udp_packet(ue_ip, [8, 8, 8, 8], 1234, 53);
    finalize_ipv4(&mut inner);
    let gpdu = encapsulate_dl_gpdu(&inner, 0x100, None);
    let acc = match dp.handle_uplink_packet(&gpdu, GNB, 0) {
        UplinkVerdict::Accepted(a) => a,
        other => panic!("expected the packet to be accepted, got {other:?}"),
    };
    // No QER polices the default session, so a failed rate check is moot.
    assert!(acc.police.is_none());
    match dp.commit_uplink(&acc, &gpdu, false, 0) {
        UplinkDelivery::Write(p) => assert_eq!(p, inner),
        other => panic!("expected a TUN write, got {other:?}"),
    }
    assert_eq!(dp.stats.dropped_packets, 0);
}

#[test]
fn test_ul_oversize_packet_dropped() {
    let ue_ip = [10, 45, 0, 7];
    let mut dp = dp_with_session(0x55, ue_ip, 0x100, 0x200);
    let mut inner = make_ipv4_udp_packet(ue_ip, [8, 8, 8, 8], 1234, 53);
    inner.resize(TUN_MTU as usize + 100, 0);
    finalize_ipv4(&mut inner);
    let gpdu = encapsulate_dl_gpdu(&inner, 0x100, None);
    let delivery = match dp.handle_uplink_packet(&gpdu, GNB, 0) {
        UplinkVerdict::Accepted(acc) => dp.commit_uplink(&acc, &gpdu, true, 0),
        other => panic!("expected the packet to pass the session checks, got {other:?}"),
    };
    match delivery {
        UplinkDelivery::Dropped(DropCause::Oversize) => {}
        other => panic!("expected an oversize drop, got {other:?}"),
    }
    assert_eq!(dp.stats.oversize_packets, 1, "oversize packet must be counted");
    assert_eq!(dp.stats.dropped_packets, 1, "oversize packet must be dropped");
    assert_eq!(dp.stats.ul_packets, 0);
}

#[test]
fn test_dl_oversize_packet_dropped() {
    let ue_ip = [10, 45, 0, 7];
    let mut dp = dp_with_session(0x66, ue_ip, 0x100, 0x200);
    let mut pkt = make_ipv4_udp_packet([8, 8, 8, 8], ue_ip, 53, 1234);
    pkt.resize(TUN_MTU as usize + 50, 0);
    finalize_ipv4(&mut pkt);
    match dp.handle_downlink_packet(&pkt) {
        DownlinkVerdict::Dropped(DropCause::Oversize) => {}
        other => panic!("expected an oversize drop, got {other:?}"),
    }
    assert_eq!(dp.stats.oversize_packets, 1);
    assert_eq!(dp.stats.dl_packets, 0);
}

#[test]
fn test_dl_to_unknown_ue_dropped() {
    let mut dp = dp_with_session(0x66, [10, 45, 0, 7], 0x100, 0x200);
    let mut pkt = make_ipv4_udp_packet([8, 8, 8, 8], [10, 45, 0, 8], 53, 1234);
    finalize_ipv4(&mut pkt);
    match dp.handle_downlink_packet(&pkt) {
        DownlinkVerdict::Dropped(DropCause::NoSession) => {}
        other => panic!("expected a drop, got {other:?}"),
    }
}

#[test]
fn test_dl_forward_to_gnb_keeps_inner_packet() {
    let ue_ip = [10, 45, 0, 7];
    let mut dp = dp_with_session(0x66, ue_ip, 0x100, 0x200);
    let mut inner = make_ipv4_udp_packet([8, 8, 8, 8], ue_ip, 53, 1234);
    finalize_ipv4(&mut inner);
    let acc = match dp.handle_downlink_packet(&inner) {
        DownlinkVerdict::Accepted(a) => a,
        other => panic!("expected the packet to be accepted, got {other:?}"),
    };
    match dp.commit_downlink(&acc, &inner, true, 0) {
        DownlinkDelivery::Send { packet, to, .. } => {
            assert_eq!(to.ip, GNB.ip);
            let hdr = parse_gtpu_header(&packet).unwrap();
            assert_eq!(hdr.teid, 0x200);
            assert_eq!(&packet[hdr.header_len..], &inner[..]);
            assert_eq!(extract_qfi_from_gtp_header(&packet), Some(9));
        }
        other => panic!("expected a G-PDU to send, got {other:?}"),
    }
}

#[test]
fn test_dl_buffering_ddn_and_flush_on_forw() {
    let ue_ip = [10, 45, 0, 7];
    let mut dp = dp_with_session(0x77, ue_ip, 100, 200);

    let buffer = PfcpSessionEvent::SessionModified {
        upf_seid: 0x77,
        dl_teid: None,
        gnb_addr: None,
        updated_fars: vec![ParsedCreateFar {
            far_id: 2,
            apply_action: FAR_ACTION_BUFF | FAR_ACTION_NOCP,
            forwarding_parameters: None,
            bar_id: Some(1),
        }],
        updated_qers: vec![],
        updated_bars: vec![ParsedCreateBar { bar_id: 1, suggested_buffering_packets_count: Some(8), ddn_delay: None }],
        send_end_marker: false,
        drop_buffered: false,
        old_dl_tunnel: None,
    };
    dp.handle_pfcp_session_event(&buffer, &vec![], 0);

    let pkt1 = make_ipv4_udp_packet([172, 23, 0, 1], ue_ip, 80, 5000);
    let pkt2 = make_ipv4_udp_packet([172, 23, 0, 1], ue_ip, 80, 5001);
    let mut events = Vec::new();
    for p in [&pkt1, &pkt2] {
        let acc = match dp.handle_downlink_packet(p) {
            DownlinkVerdict::Accepted(a) => a,
            other => panic!("expected the packet to be accepted, got {other:?}"),
        };
        match dp.commit_downlink(&acc, p, true, 0) {
            DownlinkDelivery::Buffered(e) => events.push(e),
            other => panic!("expected the packet to be buffered, got {other:?}"),
        }
    }
    assert_eq!(dp.stats.dl_packets, 0);
    assert_eq!(dp.sessions.find_by_seid(0x77).unwrap().dl_buffer.len(), 2);

    match events[0] {
        Some(UpfReportEvent::DownlinkDataReport { upf_seid, smf_seid, pdr_id, .. }) => {
            assert_eq!(upf_seid, 0x77);
            assert_eq!(smf_seid, 0x1077);
            assert_eq!(pdr_id, 2, "DL PDR id");
        }
        other => panic!("unexpected event {other:?}"),
    }
    assert!(events[1].is_none(), "no duplicate DDN for 2nd packet");

    let forward = PfcpSessionEvent::SessionModified {
        upf_seid: 0x77,
        dl_teid: None,
        gnb_addr: None,
        updated_fars: vec![ParsedCreateFar {
            far_id: 2,
            apply_action: FAR_ACTION_FORW,
            // Toward Access, with no outer header of its own: the session's
            // tunnel is used.
            forwarding_parameters: Some(ParsedForwardingParameters {
                destination_interface: 0,
                network_instance: None,
                outer_header_creation: None,
            }),
            bar_id: None,
        }],
        updated_qers: vec![],
        updated_bars: vec![],
        send_end_marker: false,
        drop_buffered: false,
        old_dl_tunnel: None,
    };
    let outcome = dp.handle_pfcp_session_event(&forward, &vec![], 0);
    assert!(outcome.flush);
    let (to, flushed) = dp.flush_buffered_dl(0x77).expect("buffered packets flush");
    assert_eq!(to, GNB);
    assert_eq!(flushed.len(), 2);
    assert!(dp.sessions.find_by_seid(0x77).unwrap().dl_buffer.is_empty());
    for (g, inner) in flushed.iter().zip([&pkt1, &pkt2]) {
        assert_eq!(g[1], 255, "G-PDU");
        assert_eq!(u32::from_be_bytes([g[4], g[5], g[6], g[7]]), 200, "DL TEID");
        assert_eq!(extract_qfi_from_gtp_header(g), Some(9), "QFI ext header on DL G-PDU");
        let hdr = parse_gtpu_header(g).unwrap();
        assert_eq!(&g[hdr.header_len..], &inner[..]);
    }
}

#[test]
fn test_session_deleted_event_removes_session() {
    let mut dp = dp_with_session(0x88, [10, 45, 0, 9], 0x300, 0x400);
    assert!(dp.sessions.find_by_seid(0x88).is_some());
    dp.handle_pfcp_session_event(
        &PfcpSessionEvent::SessionDeleted { upf_seid: 0x88, ue_ipv4: Some([10, 45, 0, 9]) },
        &vec![],
        0,
    );
    assert!(dp.sessions.find_by_seid(0x88).is_none());
    assert!(dp.sessions.find_by_ul_teid(0x300).is_none());
    assert!(!dp.remove_session_from_pfcp(0x88));
}

#[test]
fn test_modification_moves_downlink_tunnel() {
    let ue_ip = [10, 45, 0, 7];
    let mut dp = dp_with_session(0x99, ue_ip, 0x100, 0x200);
    let out = dp.handle_pfcp_session_event(
        &PfcpSessionEvent::SessionModified {
            upf_seid: 0x99,
            dl_teid: Some(0x999),
            gnb_addr: Some([172, 23, 0, 5]),
            updated_fars: vec![],
            updated_qers: vec![],
            updated_bars: vec![],
            send_end_marker: true,
            drop_buffered: false,
            old_dl_tunnel: Some((0x200, [127, 0, 0, 1])),
        },
        &vec![],
        0,
    );
    let (to, em) = out.end_marker.expect("SNDEM asks for an End Marker on the old tunnel");
    assert_eq!(to, PeerAddr { ip: [127, 0, 0, 1], port: 2152 });
    assert_eq!(em[1], 254);
    assert_eq!(u32::from_be_bytes([em[4], em[5], em[6], em[7]]), 0x200);
    let s = dp.sessions.find_by_seid(0x99).unwrap();
    assert_eq!(s.dl_teid, 0x999);
    assert_eq!(s.gnb_addr.ip, [172, 23, 0, 5]);
}
