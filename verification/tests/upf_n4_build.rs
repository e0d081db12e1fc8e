use nextgcore::pfcp::{pfcp_ie, pfcp_type, PfcpCause};
use nextgcore::upf_n4::{
    build_association_release_response, build_association_setup_response, build_failure_response,
    build_heartbeat_request, build_heartbeat_request_with_load, build_heartbeat_response,
    build_session_deletion_response, build_session_establishment_response,
    build_session_modification_response, build_session_report_request, CreatedPdr,
    DownlinkDataReport, DownlinkDataServiceInfo, FSeid, FTeid, NodeId, PfcpMessageBuilder,
    ReportType, UeIpAddress, UsageReport, UsageReportTrigger, UserPlaneReport, VolumeMeasurement,
};
use nextgcore::upf_parse::{ParsedFTeid, ParsedIe};
use nextgcore::upf_rules::{parse_create_urr, parse_pdi, parse_recovery_time_stamp};

fn find_value(payload: &[u8], ie_type: u16) -> Option<Vec<u8>> {
    let ies = ParsedIe::parse_all(payload);
    ParsedIe::find_ie(&ies, ie_type).map(|ie| ie.value.clone())
}

#[test]
fn n4_build_test_pfcp_cause_from_u8() {
    assert_eq!(PfcpCause::from(1), PfcpCause::RequestAccepted);
    assert_eq!(PfcpCause::from(65), PfcpCause::SessionContextNotFound);
    assert_eq!(PfcpCause::from(255), PfcpCause::SystemFailure);
}

#[test]
fn test_heartbeat_request_with_load_parses_via_lib_codec() {
    let payload = build_heartbeat_request_with_load(0xDEAD_BEEF, 41, 87);
    assert_eq!(parse_recovery_time_stamp(&payload), Some(0xDEAD_BEEF));
    let lci = find_value(&payload, pfcp_ie::LOAD_CONTROL_INFORMATION)
        .expect("LCI must be present");
    let seq = find_value(&lci, pfcp_ie::SEQUENCE_NUMBER).unwrap();
    assert_eq!(u32::from_be_bytes(seq[..4].try_into().unwrap()), 41);
    assert_eq!(find_value(&lci, pfcp_ie::METRIC).unwrap(), vec![87]);
}

#[test]
fn test_heartbeat_request_with_load_clamps_metric() {
    let payload = build_heartbeat_request_with_load(1, 1, 250);
    let lci = find_value(&payload, pfcp_ie::LOAD_CONTROL_INFORMATION).unwrap();
    assert_eq!(find_value(&lci, pfcp_ie::METRIC).unwrap(), vec![100]);
}

#[test]
fn test_plain_heartbeat_request_has_no_lci() {
    let payload = build_heartbeat_request(7);
    assert_eq!(payload.len(), 8);
    assert_eq!(parse_recovery_time_stamp(&payload), Some(7));
    assert!(find_value(&payload, pfcp_ie::LOAD_CONTROL_INFORMATION).is_none());
}

#[test]
fn test_heartbeat_response_carries_recovery_time_stamp() {
    let payload = build_heartbeat_response(0x01020304);
    assert_eq!(payload, vec![0x00, 0x60, 0x00, 0x04, 1, 2, 3, 4]);
}

#[test]
fn test_node_id_encode_ipv4() {
    let node_id = NodeId::Ipv4([192, 168, 1, 1]);
    let encoded = node_id.encode();
    assert_eq!(encoded[0], 0);
    assert_eq!(&encoded[1..5], &[192, 168, 1, 1]);
}

#[test]
fn test_node_id_encode_ipv6() {
    let mut localhost = [0u8; 16];
    localhost[15] = 1;
    let node_id = NodeId::Ipv6(localhost);
    let encoded = node_id.encode();
    assert_eq!(encoded[0], 1);
    assert_eq!(encoded.len(), 17);
}

#[test]
fn test_node_id_encode_fqdn() {
    let node_id = NodeId::Fqdn("upf.example.com".to_string());
    let encoded = node_id.encode();
    assert_eq!(encoded[0], 2);
    assert_eq!(encoded[1], 3);
    assert_eq!(&encoded[2..5], b"upf");
}

#[test]
fn test_f_seid_encode() {
    let f_seid = FSeid { seid: 0x123456789ABCDEF0, ipv4: Some([10, 0, 0, 1]), ipv6: None };
    let encoded = f_seid.encode();
    assert_eq!(encoded[0], 0x02);
    assert_eq!(encoded.len(), 1 + 8 + 4);
}

#[test]
fn test_f_seid_encode_dual_stack() {
    let mut localhost = [0u8; 16];
    localhost[15] = 1;
    let f_seid = FSeid { seid: 0x1234, ipv4: Some([10, 0, 0, 1]), ipv6: Some(localhost) };
    let encoded = f_seid.encode();
    assert_eq!(encoded[0], 0x03);
    assert_eq!(encoded.len(), 1 + 8 + 4 + 16);
}

#[test]
fn test_message_builder_add_tlv() {
    let mut builder = PfcpMessageBuilder::new();
    builder.add_tlv(pfcp_ie::CAUSE, &[1]);
    let msg = builder.build();
    assert_eq!(msg.len(), 4 + 1);
    assert_eq!(&msg[0..2], &pfcp_ie::CAUSE.to_be_bytes());
    assert_eq!(&msg[2..4], &1u16.to_be_bytes());
    assert_eq!(msg[4], 1);
}

#[test]
fn test_message_builder_add_cause() {
    let mut builder = PfcpMessageBuilder::new();
    builder.add_cause(PfcpCause::RequestAccepted);
    let msg = builder.build();
    assert_eq!(msg[4], 1);
}

#[test]
fn test_message_builder_add_pdr_id() {
    let mut builder = PfcpMessageBuilder::new();
    builder.add_pdr_id(0x1234);
    let msg = builder.build();
    assert_eq!(&msg[4..6], &0x1234u16.to_be_bytes());
}

#[test]
fn test_build_session_establishment_response() {
    let node_id = NodeId::Ipv4([10, 0, 0, 1]);
    let f_seid = FSeid { seid: 0x1234, ipv4: Some([10, 0, 0, 1]), ipv6: None };
    let created_pdrs = vec![CreatedPdr {
        pdr_id: 1,
        local_f_teid: Some(FTeid {
            teid: 0x5678,
            ipv4: Some([10, 0, 0, 1]),
            ipv6: None,
            choose: false,
            choose_id: None,
        }),
        ue_ip_address: None,
    }];
    let msg = build_session_establishment_response(
        pfcp_type::SESSION_ESTABLISHMENT_RESPONSE,
        0x1234,
        &node_id,
        &f_seid,
        &created_pdrs,
    );
    assert!(!msg.is_empty());
    // Node ID, then Cause "Request accepted".
    assert_eq!(&msg[..9], &[0x00, 0x3C, 0x00, 0x05, 0, 10, 0, 0, 1]);
    assert_eq!(&msg[9..14], &[0x00, 0x13, 0x00, 0x01, 1]);
}

#[test]
fn test_build_session_modification_response() {
    let msg = build_session_modification_response(pfcp_type::SESSION_MODIFICATION_RESPONSE, &[]);
    assert!(!msg.is_empty());
    assert_eq!(msg, vec![0x00, 0x13, 0x00, 0x01, 1]);
}

#[test]
fn test_build_session_deletion_response() {
    let usage_reports = vec![UsageReport {
        urr_id: 1,
        ur_seqn: 1,
        trigger: UsageReportTrigger { termination_report: true, ..Default::default() },
        volume_measurement: Some(VolumeMeasurement {
            total_volume: Some(1000),
            uplink_volume: Some(400),
            downlink_volume: Some(600),
            ..Default::default()
        }),
        ..Default::default()
    }];
    let msg = build_session_deletion_response(pfcp_type::SESSION_DELETION_RESPONSE, &usage_reports);
    assert!(!msg.is_empty());
    assert_eq!(&msg[..5], &[0x00, 0x13, 0x00, 0x01, 1]);
}

#[test]
fn test_build_session_report_request() {
    let report = UserPlaneReport {
        report_type: ReportType { downlink_data_report: true, ..Default::default() },
        downlink_data_report: Some(DownlinkDataReport {
            pdr_id: 1,
            downlink_data_service_info: Some(DownlinkDataServiceInfo { qfi: Some(5), ppi: None }),
        }),
        ..Default::default()
    };
    let msg = build_session_report_request(pfcp_type::SESSION_REPORT_REQUEST, &report);
    assert!(!msg.is_empty());
    // The Report Type IE leads with the DLDR flag.
    assert_eq!(&msg[..5], &[0x00, 0x27, 0x00, 0x01, 0x01]);
}

#[test]
fn test_usage_report_trigger_encoding() {
    let mut builder = PfcpMessageBuilder::new();
    let trigger = UsageReportTrigger {
        termination_report: true,
        volume_threshold: true,
        ..Default::default()
    };
    builder.add_usage_report_trigger(&trigger);
    let msg = builder.build();
    assert_eq!(msg.len(), 4 + 3);
}

#[test]
fn test_volume_measurement_encoding() {
    let mut builder = PfcpMessageBuilder::new();
    let vol = VolumeMeasurement {
        total_volume: Some(1000),
        uplink_volume: Some(400),
        downlink_volume: Some(600),
        ..Default::default()
    };
    builder.add_volume_measurement(&vol);
    let msg = builder.build();
    assert_eq!(msg.len(), 4 + 25);
    assert_eq!(msg[4], 0x07);
    assert_eq!(&msg[5..13], &1000u64.to_be_bytes());
}

#[test]
fn test_created_pdr_encoding() {
    let mut builder = PfcpMessageBuilder::new();
    let pdr = CreatedPdr {
        pdr_id: 0x1234,
        local_f_teid: Some(FTeid {
            teid: 0x5678,
            ipv4: Some([10, 0, 0, 1]),
            ipv6: None,
            choose: false,
            choose_id: None,
        }),
        ue_ip_address: None,
    };
    builder.add_created_pdr(&pdr);
    let msg = builder.build();
    assert!(!msg.is_empty());
}

#[test]
fn test_f_teid_encoding() {
    let mut builder = PfcpMessageBuilder::new();
    let f_teid = FTeid {
        teid: 0x12345678,
        ipv4: Some([192, 168, 1, 1]),
        ipv6: None,
        choose: false,
        choose_id: None,
    };
    builder.add_f_teid(&f_teid);
    let msg = builder.build();
    assert_eq!(msg.len(), 13);
}

#[test]
fn test_f_teid_octet5_flags_spec_conformant() {
    let mut b = PfcpMessageBuilder::new();
    b.add_f_teid(&FTeid {
        teid: 0x11223344,
        ipv4: Some([10, 45, 0, 7]),
        ipv6: None,
        choose: false,
        choose_id: None,
    });
    assert_eq!(b.build()[4], 0x01, "V4-only F-TEID octet-5 must be 0x01");

    let mut b = PfcpMessageBuilder::new();
    b.add_f_teid(&FTeid {
        teid: 0x11223344,
        ipv4: None,
        ipv6: Some([0xAB; 16]),
        choose: false,
        choose_id: None,
    });
    assert_eq!(b.build()[4], 0x02, "V6-only F-TEID octet-5 must be 0x02");

    let mut b = PfcpMessageBuilder::new();
    b.add_f_teid(&FTeid {
        teid: 0x11223344,
        ipv4: Some([10, 45, 0, 7]),
        ipv6: Some([0xAB; 16]),
        choose: false,
        choose_id: None,
    });
    assert_eq!(b.build()[4], 0x03, "dual-stack F-TEID octet-5 must be 0x03");
}

#[test]
fn test_parse_f_teid_v4_v6_bits_spec_conformant() {
    let v4 = [0x01u8, 0x00, 0x01, 0x00, 0x01, 192, 168, 1, 1];
    let parsed = ParsedFTeid::parse(&v4).expect("V4 F-TEID must parse");
    assert_eq!(parsed.ipv4, Some([192, 168, 1, 1]));
    assert!(parsed.ipv6.is_none(), "V4=Bit1 must NOT decode as IPv6");
    assert_eq!(parsed.teid, 0x0001_0001);

    let mut v6 = vec![0x02u8, 0x00, 0x00, 0x00, 0x02];
    v6.extend_from_slice(&[0xFE; 16]);
    let parsed = ParsedFTeid::parse(&v6).expect("V6 F-TEID must parse");
    assert!(parsed.ipv4.is_none(), "V6=Bit2 must NOT decode as IPv4");
    assert_eq!(parsed.ipv6, Some([0xFE; 16]));
}

#[test]
fn test_parse_f_teid_truncated_is_error() {
    assert!(ParsedFTeid::parse(&[]).is_err());
    assert!(ParsedFTeid::parse(&[0x01, 0, 0]).is_err());
    assert!(ParsedFTeid::parse(&[0x01, 0, 0, 0, 1, 10, 0]).is_err());
}

#[test]
fn test_ue_ip_address_encoding() {
    let mut builder = PfcpMessageBuilder::new();
    let ue_ip = UeIpAddress { ipv4: Some([10, 45, 0, 1]), ipv6: None, ipv6_prefix_len: 0 };
    builder.add_ue_ip_address(&ue_ip, false);
    let msg = builder.build();
    assert_eq!(msg.len(), 9);
}

fn build_sdf_filter_ie_value(flow_desc: &str) -> Vec<u8> {
    let desc_bytes = flow_desc.as_bytes();
    let mut ie_value = Vec::new();
    ie_value.push(0x01);
    ie_value.push(0x00);
    ie_value.push((desc_bytes.len() >> 8) as u8);
    ie_value.push((desc_bytes.len() & 0xFF) as u8);
    ie_value.extend_from_slice(desc_bytes);
    ie_value
}

fn build_pdi_ie_with_sdf(source_interface: u8, flow_desc: &str) -> Vec<u8> {
    let mut pdi_data = Vec::new();
    pdi_data.extend_from_slice(&pfcp_ie::SOURCE_INTERFACE.to_be_bytes());
    pdi_data.extend_from_slice(&1u16.to_be_bytes());
    pdi_data.push(source_interface);
    let sdf_value = build_sdf_filter_ie_value(flow_desc);
    pdi_data.extend_from_slice(&pfcp_ie::SDF_FILTER.to_be_bytes());
    pdi_data.extend_from_slice(&(sdf_value.len() as u16).to_be_bytes());
    pdi_data.extend_from_slice(&sdf_value);
    pdi_data
}

#[test]
fn test_parse_pdi_with_sdf_filter_fd_flag_set() {
    let pdi_data = build_pdi_ie_with_sdf(0, "permit out ip from any to any");
    let pdi = parse_pdi(&pdi_data).unwrap();
    assert_eq!(pdi.source_interface, 0);
    assert_eq!(pdi.sdf_flow_description.as_deref(), Some("permit out ip from any to any"));
}

#[test]
fn test_parse_pdi_with_sdf_filter_fd_flag_clear() {
    let mut pdi_data = Vec::new();
    pdi_data.extend_from_slice(&pfcp_ie::SOURCE_INTERFACE.to_be_bytes());
    pdi_data.extend_from_slice(&1u16.to_be_bytes());
    pdi_data.push(1);
    let mut sdf_value = vec![0x00, 0x00];
    sdf_value.extend_from_slice(&0u16.to_be_bytes());
    pdi_data.extend_from_slice(&pfcp_ie::SDF_FILTER.to_be_bytes());
    pdi_data.extend_from_slice(&(sdf_value.len() as u16).to_be_bytes());
    pdi_data.extend_from_slice(&sdf_value);

    let pdi = parse_pdi(&pdi_data).unwrap();
    assert_eq!(pdi.source_interface, 1);
    assert!(pdi.sdf_flow_description.is_none());
}

#[test]
fn test_parse_pdi_with_sdf_filter_too_short() {
    let mut pdi_data = Vec::new();
    pdi_data.extend_from_slice(&pfcp_ie::SOURCE_INTERFACE.to_be_bytes());
    pdi_data.extend_from_slice(&1u16.to_be_bytes());
    pdi_data.push(0);
    pdi_data.extend_from_slice(&pfcp_ie::SDF_FILTER.to_be_bytes());
    pdi_data.extend_from_slice(&2u16.to_be_bytes());
    pdi_data.extend_from_slice(&[0x01, 0x00]);

    let pdi = parse_pdi(&pdi_data).unwrap();
    assert!(pdi.sdf_flow_description.is_none());
}

#[test]
fn test_parse_pdi_with_udp_sdf_filter() {
    let flow = "permit out 17 from 10.0.0.1 to 10.0.0.2 80";
    let pdi_data = build_pdi_ie_with_sdf(0, flow);
    let pdi = parse_pdi(&pdi_data).unwrap();
    assert_eq!(pdi.sdf_flow_description.as_deref(), Some(flow));
}

#[test]
fn test_parse_pdi_no_sdf_filter() {
    let mut pdi_data = Vec::new();
    pdi_data.extend_from_slice(&pfcp_ie::SOURCE_INTERFACE.to_be_bytes());
    pdi_data.extend_from_slice(&1u16.to_be_bytes());
    pdi_data.push(0);

    let pdi = parse_pdi(&pdi_data).unwrap();
    assert_eq!(pdi.source_interface, 0);
    assert!(pdi.sdf_flow_description.is_none());
}

#[test]
fn test_parse_pdi_with_truncated_f_teid_is_error() {
    // An F-TEID IE (type 21) whose value stops inside the TEID.
    let pdi_data = [0x00, 0x15, 0x00, 0x02, 0x01, 0x00];
    assert!(parse_pdi(&pdi_data).is_err());
    // Without any IE the PDI parses with source interface 0.
    assert_eq!(parse_pdi(&[]).unwrap().source_interface, 0);
}

#[test]
fn test_parse_f_teid_choose_flag_no_teid_bytes() {
    let data = [0x04u8];
    let fteid = ParsedFTeid::parse(&data).expect("CH=1 F-TEID must parse");
    assert!(fteid.ch);
    assert_eq!(fteid.teid, 0);
    assert!(fteid.ipv4.is_none());
}

#[test]
fn test_parse_f_teid_choose_with_choose_id() {
    let data = [0x0Cu8, 0x07];
    let fteid = ParsedFTeid::parse(&data).expect("CH+CHID F-TEID must parse");
    assert!(fteid.ch);
    assert!(fteid.chid);
    assert_eq!(fteid.choose_id, Some(7));
    assert_eq!(fteid.teid, 0);
}

#[test]
fn test_parse_f_teid_zero_teid_request() {
    let data = [0x00u8, 0x00, 0x00, 0x00, 0x00];
    let fteid = ParsedFTeid::parse(&data).expect("teid=0 F-TEID must parse");
    assert!(!fteid.ch);
    assert_eq!(fteid.teid, 0);
}

#[test]
fn test_uplink_alloc_round_trip_created_pdr() {
    let req = [0x04u8];
    let parsed = ParsedFTeid::parse(&req).unwrap();
    assert!(parsed.ch || parsed.teid == 0, "should request allocation");

    let allocated_teid: u32 = 0x10001;
    let upf_n3 = [172u8, 23, 0, 7];
    let created = CreatedPdr {
        pdr_id: 1,
        local_f_teid: Some(FTeid {
            teid: allocated_teid,
            ipv4: Some(upf_n3),
            ipv6: None,
            choose: false,
            choose_id: None,
        }),
        ue_ip_address: None,
    };
    let mut builder = PfcpMessageBuilder::new();
    builder.add_created_pdr(&created);
    let created_pdr_ie_value = builder.build();

    let ies = ParsedIe::parse_all(&created_pdr_ie_value);
    let created_ie =
        ParsedIe::find_ie(&ies, pfcp_ie::CREATED_PDR).expect("Created PDR IE must be present");
    let inner = ParsedIe::parse_all(&created_ie.value);
    let fteid_ie = ParsedIe::find_ie(&inner, pfcp_ie::F_TEID).expect("Created PDR must carry an F-TEID");
    let fteid_val = &fteid_ie.value;
    assert!(fteid_val.len() >= 5);
    let flags = fteid_val[0];
    let teid = u32::from_be_bytes(fteid_val[1..5].try_into().unwrap());
    assert_ne!(teid, 0, "SMF requires a non-zero allocated F-TEID");
    assert_eq!(teid, allocated_teid);
    assert_eq!(flags & 0x04, 0, "response F-TEID must have CH cleared");
    assert_ne!(flags & 0x01, 0, "response F-TEID must carry IPv4 (V4=Bit1)");
    assert_eq!(&fteid_val[5..9], &upf_n3);
}

#[test]
fn test_ue_ip_address_ipv6_prefix_len_uses_ip6pl_flag() {
    let mut b = PfcpMessageBuilder::new();
    b.add_ue_ip_address(
        &UeIpAddress { ipv4: Some([10, 45, 0, 2]), ipv6: None, ipv6_prefix_len: 64 },
        false,
    );
    let msg = b.build();
    let octet5 = msg[4];
    assert_eq!(octet5 & 0x40, 0x40, "IP6PL flag (Bit7=0x40) must be set when ipv6_prefix_len>0");
    assert_eq!(octet5 & 0x08, 0, "IPv6D flag (Bit4=0x08) must NOT be set for prefix length");
    assert_eq!(octet5 & 0x02, 0x02, "V4 flag (Bit2=0x02) must be set");
    let expected_len = msg.len();
    assert_eq!(msg[expected_len - 1], 64, "trailing byte must be the IPv6 prefix length");

    let mut b2 = PfcpMessageBuilder::new();
    b2.add_ue_ip_address(&UeIpAddress { ipv4: None, ipv6: Some([0xAB; 16]), ipv6_prefix_len: 0 }, false);
    let msg2 = b2.build();
    assert_eq!(msg2[4] & 0x01, 0x01, "V6 flag (Bit1=0x01) must be set for IPv6");
}

#[test]
fn test_f_teid_chid_flag_set_when_choose_id_present() {
    let mut b = PfcpMessageBuilder::new();
    b.add_f_teid(&FTeid { teid: 0, ipv4: None, ipv6: None, choose: true, choose_id: Some(7) });
    let msg = b.build();
    let octet5 = msg[4];
    assert_eq!(octet5 & 0x04, 0x04, "CH flag (0x04) must be set");
    assert_eq!(octet5 & 0x08, 0x08, "CHID flag (0x08) must be set when choose_id is Some");
    assert_eq!(*msg.last().unwrap(), 7, "CHOOSE ID byte must be 7");

    let ie_value = &msg[4..];
    let parsed = ParsedFTeid::parse(ie_value).expect("CH+CHID F-TEID must parse");
    assert!(parsed.ch, "parsed CH must be true");
    assert!(parsed.chid, "parsed CHID must be true");
    assert_eq!(parsed.choose_id, Some(7), "parsed choose_id must be Some(7)");
}

fn put_u16(v: &mut Vec<u8>, x: u16) {
    v.extend_from_slice(&x.to_be_bytes());
}
fn put_u32(v: &mut Vec<u8>, x: u32) {
    v.extend_from_slice(&x.to_be_bytes());
}
fn put_u64(v: &mut Vec<u8>, x: u64) {
    v.extend_from_slice(&x.to_be_bytes());
}

#[test]
fn test_parse_urr_with_quota_and_measurement_period() {
    let mut urr_data = Vec::new();
    put_u16(&mut urr_data, pfcp_ie::URR_ID);
    put_u16(&mut urr_data, 4);
    put_u32(&mut urr_data, 1);
    put_u16(&mut urr_data, pfcp_ie::MEASUREMENT_PERIOD);
    put_u16(&mut urr_data, 4);
    put_u32(&mut urr_data, 60);
    put_u16(&mut urr_data, pfcp_ie::VOLUME_QUOTA);
    put_u16(&mut urr_data, 9);
    urr_data.push(0x01);
    put_u64(&mut urr_data, 1_000_000);
    put_u16(&mut urr_data, pfcp_ie::TIME_QUOTA);
    put_u16(&mut urr_data, 4);
    put_u32(&mut urr_data, 3600);

    let urr = parse_create_urr(&urr_data).expect("URR parsing must succeed");
    assert_eq!(urr.urr_id, 1, "URR ID must be 1");
    assert_eq!(urr.measurement_period_secs, Some(60), "Measurement period must be 60 seconds");
    assert_eq!(urr.volume_quota_total, Some(1_000_000), "Total volume quota must be 1_000_000");
    assert!(urr.volume_quota_ul.is_none(), "UL volume quota must be None");
    assert!(urr.volume_quota_dl.is_none(), "DL volume quota must be None");
    assert_eq!(urr.time_quota_secs, Some(3600), "Time quota must be 3600 seconds");
}

#[test]
fn test_parse_urr_with_volume_quota_breakdown() {
    let mut urr_data = Vec::new();
    put_u16(&mut urr_data, pfcp_ie::URR_ID);
    put_u16(&mut urr_data, 4);
    put_u32(&mut urr_data, 42);
    put_u16(&mut urr_data, pfcp_ie::VOLUME_QUOTA);
    put_u16(&mut urr_data, 25);
    urr_data.push(0x07);
    put_u64(&mut urr_data, 10_000_000);
    put_u64(&mut urr_data, 5_000_000);
    put_u64(&mut urr_data, 5_000_000);

    let urr = parse_create_urr(&urr_data).expect("URR parsing must succeed");
    assert_eq!(urr.urr_id, 42);
    assert_eq!(urr.volume_quota_total, Some(10_000_000));
    assert_eq!(urr.volume_quota_ul, Some(5_000_000));
    assert_eq!(urr.volume_quota_dl, Some(5_000_000));
}

#[test]
fn test_parse_urr_with_quota_reporting_triggers() {
    let mut urr_data = Vec::new();
    put_u16(&mut urr_data, pfcp_ie::URR_ID);
    put_u16(&mut urr_data, 4);
    put_u32(&mut urr_data, 99);
    put_u16(&mut urr_data, pfcp_ie::REPORTING_TRIGGERS);
    put_u16(&mut urr_data, 3);
    urr_data.push(0x03);
    urr_data.push(0x00);
    urr_data.push(0x06);

    let urr = parse_create_urr(&urr_data).expect("URR parsing must succeed");
    assert_eq!(urr.urr_id, 99);
    assert!(urr.trigger_periodic, "Periodic trigger must be true");
    assert!(urr.trigger_volume_threshold, "Volume threshold trigger must be true");
    assert!(!urr.trigger_time_threshold, "Time threshold trigger must be false");
    assert!(urr.trigger_volume_quota, "Volume quota trigger must be true");
    assert!(urr.trigger_time_quota, "Time quota trigger must be true");
}

#[test]
fn test_parse_urr_without_id_is_error() {
    assert!(parse_create_urr(&[]).is_err());
}

#[test]
fn test_association_and_failure_responses() {
    let node = NodeId::Ipv4([10, 0, 0, 9]);
    let setup = build_association_setup_response(&node, 5, PfcpCause::RequestAccepted);
    assert_eq!(&setup[..14], &[0x00, 0x3C, 0x00, 0x05, 0, 10, 0, 0, 9, 0x00, 0x13, 0x00, 0x01, 1]);
    assert_eq!(parse_recovery_time_stamp(&setup), Some(5));
    let release = build_association_release_response(&node, PfcpCause::RequestRejected);
    assert_eq!(&release[9..], &[0x00, 0x13, 0x00, 0x01, 64]);
    let fail = build_failure_response(PfcpCause::MandatoryIeMissing, Some(57));
    assert_eq!(fail, vec![0x00, 0x13, 0x00, 0x01, 66, 0x00, 0x28, 0x00, 0x02, 0x00, 57]);
    assert_eq!(build_failure_response(PfcpCause::SystemFailure, None), vec![0x00, 0x13, 0x00, 0x01, 77]);
}
