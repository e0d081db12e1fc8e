use nextgcore::pfcp::PfcpCause;
use nextgcore::pfcp::{apply_action, delete_trigger, interface, modify_flags, pfcp_ie};
use nextgcore::smf_n4::{
    build_create_bar, build_create_far, build_create_pdr, build_create_qer, build_create_urr,
    build_remove_far, build_remove_pdr, build_remove_qer, build_remove_urr,
    build_update_far_activate, build_update_far_deactivate, build_update_pdr, build_update_urr,
    BarParams, FarParams, PdrParams, PfcpMessageBuilder, QerParams, UrrParams,
};
use nextgcore::smf_session::{
    build_session_deletion_request, build_session_establishment_request,
    build_session_establishment_request_full, build_session_modification_request,
    SessionModificationParams,
};

#[test]
fn test_pfcp_cause_from_u8() {
    assert_eq!(PfcpCause::from(1), PfcpCause::RequestAccepted);
    assert_eq!(PfcpCause::from(64), PfcpCause::RequestRejected);
    assert_eq!(PfcpCause::from(65), PfcpCause::SessionContextNotFound);
    assert_eq!(PfcpCause::from(77), PfcpCause::SystemFailure);
    assert_eq!(PfcpCause::from(255), PfcpCause::SystemFailure); // Unknown
}

#[test]
fn test_pfcp_cause_default() {
    assert_eq!(PfcpCause::default(), PfcpCause::RequestAccepted);
}

#[test]
fn test_pfcp_cause_code_roundtrip_on_known_values() {
    for code in [1u8, 64, 65, 66, 67, 68, 69, 70, 71, 72, 73, 74, 75, 76, 77] {
        assert_eq!(PfcpCause::from(code).as_u8(), code);
    }
}

#[test]
fn test_pfcp_message_builder_new() {
    let builder = PfcpMessageBuilder::new();
    assert!(builder.is_empty());
    assert_eq!(builder.len(), 0);
}

#[test]
fn test_pfcp_message_builder_add_u8() {
    let mut builder = PfcpMessageBuilder::new();
    builder.add_u8(pfcp_ie::CAUSE, 1);
    let data = builder.build();

    assert_eq!(data.len(), 5);
    assert_eq!(data[0], 0);
    assert_eq!(data[1], pfcp_ie::CAUSE as u8);
    assert_eq!(data[2], 0);
    assert_eq!(data[3], 1);
    assert_eq!(data[4], 1);
}

#[test]
fn test_pfcp_message_builder_add_u16() {
    let mut builder = PfcpMessageBuilder::new();
    builder.add_u16(pfcp_ie::PDR_ID, 0x1234);
    let data = builder.build();

    assert_eq!(data.len(), 6);
    assert_eq!(data[4], 0x12);
    assert_eq!(data[5], 0x34);
}

#[test]
fn test_pfcp_message_builder_add_u32() {
    let mut builder = PfcpMessageBuilder::new();
    builder.add_u32(pfcp_ie::FAR_ID, 0x12345678);
    let data = builder.build();

    assert_eq!(data.len(), 8);
    assert_eq!(data[4], 0x12);
    assert_eq!(data[5], 0x34);
    assert_eq!(data[6], 0x56);
    assert_eq!(data[7], 0x78);
}

#[test]
fn test_pfcp_message_builder_add_f_seid() {
    let mut builder = PfcpMessageBuilder::new();
    builder.add_f_seid(0x123456789ABCDEF0, Some([192, 168, 1, 1]), None);
    let data = builder.build();

    assert_eq!(data.len(), 17);
    assert_eq!(data[4], 0x02);
}

#[test]
fn test_add_f_teid_octet5_flags_spec_conformant() {
    let mut b = PfcpMessageBuilder::new();
    b.add_f_teid(0x0001_0001, Some([192, 168, 1, 1]), None, None);
    assert_eq!(b.build()[4], 0x01, "V4-only F-TEID octet-5 must be 0x01");

    let mut b = PfcpMessageBuilder::new();
    b.add_f_teid(0x0002_0002, None, Some([0u8; 16]), None);
    assert_eq!(b.build()[4], 0x02, "V6-only F-TEID octet-5 must be 0x02");

    let mut b = PfcpMessageBuilder::new();
    b.add_f_teid(0x0003_0003, Some([10, 0, 0, 1]), Some([0u8; 16]), None);
    assert_eq!(b.build()[4], 0x03, "dual-stack F-TEID octet-5 must be 0x03");
}

#[test]
fn test_pfcp_message_builder_add_apn_dnn() {
    let mut builder = PfcpMessageBuilder::new();
    builder.add_apn_dnn("internet");
    let data = builder.build();

    assert_eq!(data.len(), 13);
    assert_eq!(data[4], 8);
    assert_eq!(&data[5..13], b"internet");
}

#[test]
fn test_pfcp_message_builder_add_apn_dnn_multiple_labels() {
    let mut builder = PfcpMessageBuilder::new();
    builder.add_apn_dnn("ims.mnc01");
    let data = builder.build();
    assert_eq!(&data[4..], &[3, b'i', b'm', b's', 5, b'm', b'n', b'c', b'0', b'1']);
    assert_eq!(data[3], 10);
}

#[test]
fn test_pfcp_message_builder_add_s_nssai() {
    let mut builder = PfcpMessageBuilder::new();
    builder.add_s_nssai(1, Some(0x010203));
    let data = builder.build();

    assert_eq!(data.len(), 8);
    assert_eq!(data[4], 1);
    assert_eq!(data[5], 0x01);
    assert_eq!(data[6], 0x02);
    assert_eq!(data[7], 0x03);
}

#[test]
fn test_pfcp_message_builder_add_s_nssai_no_sd() {
    let mut builder = PfcpMessageBuilder::new();
    builder.add_s_nssai(1, None);
    let data = builder.build();

    assert_eq!(data.len(), 8);
    assert_eq!(data[4], 1);
    assert_eq!(data[5], 0xff);
    assert_eq!(data[6], 0xff);
    assert_eq!(data[7], 0xff);
}

#[test]
fn test_build_session_establishment_request() {
    let data = build_session_establishment_request(
        0x123456789ABCDEF0,
        &[0x00, 192, 168, 1, 1],
        Some([192, 168, 1, 1]),
        None,
        Some(1),
        Some("internet"),
        Some((1, Some(0x010203))),
        None,
        false,
    );

    assert!(!data.is_empty());
}

#[test]
fn test_build_session_establishment_request_starts_with_node_id_and_cp_f_seid() {
    let data = build_session_establishment_request(
        0x0102030405060708,
        &[0x00, 10, 0, 0, 1],
        Some([10, 0, 0, 2]),
        None,
        None,
        None,
        None,
        None,
        false,
    );
    // Node ID IE (type 60, len 5) then CP F-SEID (type 57, len 13).
    let expected: Vec<u8> = vec![
        0x00, 0x3C, 0x00, 0x05, 0x00, 10, 0, 0, 1, //
        0x00, 0x39, 0x00, 0x0D, 0x02, 1, 2, 3, 4, 5, 6, 7, 8, 10, 0, 0, 2,
    ];
    assert_eq!(data, expected);
}

#[test]
fn test_build_session_deletion_request() {
    let data = build_session_deletion_request();
    assert!(data.is_empty());
}

#[test]
fn test_build_create_pdr() {
    let params = PdrParams {
        pdr_id: 1,
        precedence: 100,
        source_interface: interface::ACCESS,
        far_id: Some(1),
        qfi: Some(9),
        ..Default::default()
    };

    let data = build_create_pdr(&params);
    assert!(!data.is_empty());
}

#[test]
fn test_add_ue_ip_address_octet5_flags_spec_conformant() {
    let mut b = PfcpMessageBuilder::new();
    b.add_ue_ip_address(Some([10, 45, 0, 2]), None, true, false);
    assert_eq!(b.build()[4], 0x02, "IPv4 Source UE IP octet-5 must be 0x02");

    let mut b = PfcpMessageBuilder::new();
    b.add_ue_ip_address(Some([10, 45, 0, 2]), None, false, true);
    assert_eq!(b.build()[4], 0x06, "IPv4 Destination UE IP octet-5 must be 0x06");

    let mut b = PfcpMessageBuilder::new();
    b.add_ue_ip_address(None, Some([0u8; 16]), true, false);
    assert_eq!(b.build()[4], 0x01, "IPv6 Source UE IP octet-5 must be 0x01");

    let mut b = PfcpMessageBuilder::new();
    b.add_ue_ip_address(None, Some([0u8; 16]), false, true);
    assert_eq!(b.build()[4], 0x05, "IPv6 Destination UE IP octet-5 must be 0x05");

    let mut b = PfcpMessageBuilder::new();
    b.add_ue_ip_address(Some([10, 45, 0, 2]), Some([0u8; 16]), true, false);
    assert_eq!(b.build()[4], 0x03, "dual-stack Source UE IP octet-5 must be 0x03");
}

#[test]
fn test_golden_ul_pdr_ue_ip_source_sd_bit_clear() {
    let ul_pdr = PdrParams {
        pdr_id: 1,
        precedence: 100,
        source_interface: 0,
        f_teid: Some((0, None, None)),
        ue_ip_address: Some((Some([10, 45, 0, 2]), None, true)),
        outer_header_removal: Some(0),
        far_id: Some(1),
        qer_id: Some(1),
        qfi: Some(9),
        ..Default::default()
    };
    let data = build_create_pdr(&ul_pdr);

    let expected: [u8; 67] = [
        0x00, 0x38, 0x00, 0x02, 0x00, 0x01,
        0x00, 0x1D, 0x00, 0x04, 0x00, 0x00, 0x00, 0x64,
        0x00, 0x02, 0x00, 0x1C,
        0x00, 0x14, 0x00, 0x01, 0x00,
        0x00, 0x15, 0x00, 0x05, 0x00, 0x00, 0x00, 0x00, 0x00,
        0x00, 0x5D, 0x00, 0x05, 0x02, 0x0A, 0x2D, 0x00, 0x02,
        0x00, 0x7C, 0x00, 0x01, 0x09,
        0x00, 0x5F, 0x00, 0x01, 0x00,
        0x00, 0x6C, 0x00, 0x04, 0x00, 0x00, 0x00, 0x01,
        0x00, 0x6D, 0x00, 0x04, 0x00, 0x00, 0x00, 0x01,
    ];
    assert_eq!(data, expected, "UL Create PDR bytes must match the hand-derived golden vector");

    assert_eq!(
        &data[32..41],
        &[0x00, 0x5D, 0x00, 0x05, 0x02, 0x0A, 0x2D, 0x00, 0x02],
        "UL UE IP Address IE TLV must advertise S/D=0 (Source)"
    );
    assert_eq!(data[36], 0x02, "UL UE IP Address value[0] must be 0x02 (V4, S/D=0)");
}

#[test]
fn test_golden_dl_pdr_ue_ip_destination_sd_bit_set() {
    let dl_pdr = PdrParams {
        pdr_id: 2,
        precedence: 100,
        source_interface: 1,
        ue_ip_address: Some((Some([10, 45, 0, 2]), None, false)),
        far_id: Some(2),
        qer_id: Some(1),
        qfi: Some(9),
        ..Default::default()
    };
    let data = build_create_pdr(&dl_pdr);

    let expected: [u8; 53] = [
        0x00, 0x38, 0x00, 0x02, 0x00, 0x02,
        0x00, 0x1D, 0x00, 0x04, 0x00, 0x00, 0x00, 0x64,
        0x00, 0x02, 0x00, 0x13,
        0x00, 0x14, 0x00, 0x01, 0x01,
        0x00, 0x5D, 0x00, 0x05, 0x06, 0x0A, 0x2D, 0x00, 0x02,
        0x00, 0x7C, 0x00, 0x01, 0x09,
        0x00, 0x6C, 0x00, 0x04, 0x00, 0x00, 0x00, 0x02,
        0x00, 0x6D, 0x00, 0x04, 0x00, 0x00, 0x00, 0x01,
    ];
    assert_eq!(data, expected, "DL Create PDR bytes must match the hand-derived golden vector");

    assert_eq!(
        &data[23..32],
        &[0x00, 0x5D, 0x00, 0x05, 0x06, 0x0A, 0x2D, 0x00, 0x02],
        "DL UE IP Address IE TLV must advertise S/D=1 (Destination)"
    );
    assert_eq!(data[27], 0x06, "DL UE IP Address value[0] must be 0x06 (V4, S/D=1)");
}

#[test]
fn test_build_remove_pdr() {
    let data = build_remove_pdr(1);
    assert_eq!(data.len(), 6);
}

#[test]
fn test_build_create_far() {
    let params = FarParams {
        far_id: 1,
        apply_action: apply_action::FORW,
        destination_interface: Some(interface::CORE),
        ..Default::default()
    };

    let data = build_create_far(&params);
    assert!(!data.is_empty());
}

#[test]
fn test_build_update_far_activate() {
    let data = build_update_far_activate(
        1,
        interface::ACCESS,
        Some((0x0100, 0x12345678, Some([10, 0, 0, 1]), None)),
        true,
    );

    assert!(!data.is_empty());
}

#[test]
fn test_build_update_far_deactivate() {
    let data = build_update_far_deactivate(1);
    assert!(!data.is_empty());
}

#[test]
fn test_build_remove_far() {
    let data = build_remove_far(1);
    assert_eq!(data.len(), 8);
}

#[test]
fn test_build_create_urr() {
    let params = UrrParams {
        urr_id: 1,
        measurement_method: (true, true, false),
        reporting_triggers: 0x010000,
        volume_threshold: Some((Some(1000000), None, None)),
        time_threshold: Some(3600),
        ..Default::default()
    };

    let data = build_create_urr(&params);
    assert!(!data.is_empty());
}

#[test]
fn test_build_remove_urr() {
    let data = build_remove_urr(1);
    assert_eq!(data.len(), 8);
}

#[test]
fn test_build_create_qer() {
    let params = QerParams {
        qer_id: 1,
        gate_status: (0, 0),
        mbr: Some((100000000, 100000000)),
        qfi: Some(9),
        ..Default::default()
    };

    let data = build_create_qer(&params);
    assert!(!data.is_empty());
}

#[test]
fn test_build_remove_qer() {
    let data = build_remove_qer(1);
    assert_eq!(data.len(), 8);
}

#[test]
fn test_build_create_bar() {
    let params = BarParams {
        bar_id: 1,
        downlink_data_notification_delay: Some(50),
        suggested_buffering_packets_count: Some(10),
    };

    let data = build_create_bar(&params);
    assert!(!data.is_empty());
}

#[test]
fn test_build_create_bar_exact_bytes() {
    let params = BarParams {
        bar_id: 3,
        downlink_data_notification_delay: None,
        suggested_buffering_packets_count: Some(7),
    };
    let data = build_create_bar(&params);
    // BAR ID (type 88, len 1) then Suggested Buffering Packets Count (type 140, len 1).
    assert_eq!(data, vec![0x00, 0x58, 0x00, 0x01, 3, 0x00, 0x8C, 0x00, 0x01, 7]);
}

#[test]
fn test_modify_flags_constants() {
    assert_eq!(modify_flags::CREATE, 1);
    assert_eq!(modify_flags::REMOVE, 2);
    assert_eq!(modify_flags::ACTIVATE, 4);
    assert_eq!(modify_flags::DEACTIVATE, 8);
}

#[test]
fn test_delete_trigger_constants() {
    assert_eq!(delete_trigger::LOCAL_INITIATED, 1);
    assert_eq!(delete_trigger::UE_REQUESTED, 2);
    assert_eq!(delete_trigger::AMF_UPDATE_SM_CONTEXT, 3);
    assert_eq!(delete_trigger::AMF_RELEASE_SM_CONTEXT, 4);
    assert_eq!(delete_trigger::PCF_INITIATED, 5);
}

#[test]
fn test_interface_constants() {
    assert_eq!(interface::ACCESS, 0);
    assert_eq!(interface::CORE, 1);
    assert_eq!(interface::CP_FUNCTION, 3);
}

#[test]
fn test_apply_action_constants() {
    assert_eq!(apply_action::DROP, 1);
    assert_eq!(apply_action::FORW, 2);
    assert_eq!(apply_action::BUFF, 4);
    assert_eq!(apply_action::NOCP, 8);
}

#[test]
fn test_pfcp_message_builder_clear() {
    let mut builder = PfcpMessageBuilder::new();
    builder.add_u8(pfcp_ie::CAUSE, 1);
    assert!(!builder.is_empty());

    builder.clear();
    assert!(builder.is_empty());
}

#[test]
fn test_pfcp_message_builder_chaining() {
    let mut builder = PfcpMessageBuilder::new();
    builder
        .add_u8(pfcp_ie::CAUSE, 1)
        .add_u16(pfcp_ie::PDR_ID, 1)
        .add_u32(pfcp_ie::FAR_ID, 1);

    assert_eq!(builder.len(), 19);
}

#[test]
fn test_build_update_pdr() {
    let data = build_update_pdr(1, Some(0));
    assert!(!data.is_empty());
}

#[test]
fn test_build_update_urr() {
    let params = UrrParams {
        urr_id: 1,
        volume_quota: Some((Some(500000), None, None)),
        ..Default::default()
    };

    let data = build_update_urr(&params, modify_flags::URR_VOLUME_QUOTA);
    assert!(!data.is_empty());
}

#[test]
fn test_pfcp_message_builder_add_user_id() {
    let mut builder = PfcpMessageBuilder::new();
    builder.add_user_id(Some(&[0x00, 0x10, 0x10]), None, None);
    let data = builder.build();

    assert!(!data.is_empty());
    assert_eq!(data[4] & 0x01, 0x01);
}

#[test]
fn test_pfcp_message_builder_add_sdf_filter() {
    let mut builder = PfcpMessageBuilder::new();
    builder.add_sdf_filter(Some("permit out ip from any to any"), None, None, None, None);
    let data = builder.build();

    assert!(!data.is_empty());
}

#[test]
fn test_build_session_modification_request_empty() {
    let params = SessionModificationParams::default();
    let data = build_session_modification_request(&params);
    assert!(data.is_empty());
}

#[test]
fn test_build_session_modification_request_create_pdr_far() {
    let params = SessionModificationParams {
        create_pdrs: vec![PdrParams {
            pdr_id: 1,
            precedence: 100,
            source_interface: interface::ACCESS,
            far_id: Some(1),
            qfi: Some(9),
            ..Default::default()
        }],
        create_fars: vec![FarParams {
            far_id: 1,
            apply_action: apply_action::FORW,
            destination_interface: Some(interface::CORE),
            ..Default::default()
        }],
        ..Default::default()
    };
    let data = build_session_modification_request(&params);
    assert!(!data.is_empty());
}

#[test]
fn test_build_session_modification_request_remove_rules() {
    let params = SessionModificationParams {
        remove_pdr_ids: vec![1, 2],
        remove_far_ids: vec![1, 2],
        remove_qer_ids: vec![1],
        remove_urr_ids: vec![1],
        ..Default::default()
    };
    let data = build_session_modification_request(&params);
    assert!(!data.is_empty());
}

#[test]
fn test_build_session_modification_request_update_far() {
    let params = SessionModificationParams {
        update_fars_activate: vec![(
            1,
            interface::ACCESS,
            Some((0x0100, 0x12345678, Some([10, 0, 0, 1]), None)),
            false,
        )],
        update_fars_deactivate: vec![2],
        ..Default::default()
    };
    let data = build_session_modification_request(&params);
    assert!(!data.is_empty());
}

#[test]
fn test_build_session_modification_request_end_marker_adds_sndem_flag() {
    let with_em = SessionModificationParams {
        update_fars_activate: vec![(1, interface::ACCESS, None, true)],
        ..Default::default()
    };
    let without_em = SessionModificationParams {
        update_fars_activate: vec![(1, interface::ACCESS, None, false)],
        ..Default::default()
    };
    let a = build_session_modification_request(&with_em);
    let b = build_session_modification_request(&without_em);
    // The PFCPSMReq-Flags IE (type 49, len 1, SNDEM) leads; the rest is the same.
    assert_eq!(a.len(), b.len() + 5);
    assert_eq!(&a[..5], &[0x00, 0x31, 0x00, 0x01, 0x02]);
    assert_eq!(&a[5..], &b[..]);
}

#[test]
fn test_build_session_modification_request_qer_urr() {
    let params = SessionModificationParams {
        create_qers: vec![QerParams {
            qer_id: 1,
            gate_status: (0, 0),
            mbr: Some((100_000_000, 100_000_000)),
            qfi: Some(9),
            ..Default::default()
        }],
        update_qers: vec![QerParams {
            qer_id: 2,
            gate_status: (0, 0),
            mbr: Some((200_000_000, 200_000_000)),
            ..Default::default()
        }],
        create_urrs: vec![UrrParams {
            urr_id: 1,
            measurement_method: (true, true, false),
            reporting_triggers: 0x010000,
            ..Default::default()
        }],
        update_urrs: vec![(
            UrrParams {
                urr_id: 2,
                volume_quota: Some((Some(500_000), None, None)),
                ..Default::default()
            },
            modify_flags::URR_VOLUME_QUOTA,
        )],
        ..Default::default()
    };
    let data = build_session_modification_request(&params);
    assert!(!data.is_empty());
}

#[test]
fn test_build_session_establishment_request_full_basic() {
    let data = build_session_establishment_request_full(
        0x123456789ABCDEF0,
        &[0x00, 192, 168, 1, 1],
        Some([192, 168, 1, 1]),
        None,
        Some(1),
        Some("internet"),
        Some((1, Some(0x010203))),
        None,
        false,
        &[],
        &[],
        &[],
        &[],
        &[],
    );
    assert!(!data.is_empty());
}

#[test]
fn test_build_session_establishment_request_full_with_rules() {
    let pdrs = vec![
        PdrParams {
            pdr_id: 1,
            precedence: 100,
            source_interface: interface::ACCESS,
            far_id: Some(1),
            qer_id: Some(1),
            qfi: Some(9),
            ..Default::default()
        },
        PdrParams {
            pdr_id: 2,
            precedence: 200,
            source_interface: interface::CORE,
            far_id: Some(2),
            qer_id: Some(1),
            ue_ip_address: Some((Some([10, 45, 0, 1]), None, false)),
            ..Default::default()
        },
    ];
    let fars = vec![
        FarParams {
            far_id: 1,
            apply_action: apply_action::BUFF | apply_action::NOCP,
            ..Default::default()
        },
        FarParams {
            far_id: 2,
            apply_action: apply_action::FORW,
            destination_interface: Some(interface::ACCESS),
            ..Default::default()
        },
    ];
    let qers = vec![QerParams {
        qer_id: 1,
        gate_status: (0, 0),
        mbr: Some((100_000_000, 100_000_000)),
        qfi: Some(9),
        ..Default::default()
    }];
    let urrs = vec![UrrParams {
        urr_id: 1,
        measurement_method: (true, true, false),
        reporting_triggers: 0x010000,
        volume_threshold: Some((Some(1_000_000), None, None)),
        ..Default::default()
    }];
    let bars = vec![BarParams {
        bar_id: 1,
        downlink_data_notification_delay: Some(50),
        suggested_buffering_packets_count: Some(10),
    }];

    let data = build_session_establishment_request_full(
        0x100,
        &[0x00, 10, 0, 0, 1],
        Some([10, 0, 0, 1]),
        None,
        Some(1),
        Some("internet"),
        Some((1, None)),
        Some((&[0x00, 0x10, 0x10], None, None)),
        true,
        &pdrs,
        &fars,
        &qers,
        &urrs,
        &bars,
    );
    assert!(!data.is_empty());
    let basic_data = build_session_establishment_request(
        0x100,
        &[0x00, 10, 0, 0, 1],
        Some([10, 0, 0, 1]),
        None,
        Some(1),
        Some("internet"),
        Some((1, None)),
        Some((&[0x00, 0x10, 0x10], None, None)),
        true,
    );
    assert!(data.len() > basic_data.len());
}
