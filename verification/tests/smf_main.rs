use nextgcore::sbi_text::{
    ipv4_from_octets, parse_host_port, parse_unsigned_range, report_type_string, self_sbi_uri,
    smf_n4_seid_for, uri_path,
};
use nextgcore::smf_config::{
    config_from_yaml, configured_urr_profile_for_apn, default_urr_profile, get_urr,
    AddrEntry, ApnConfigEntry, FeatureFlagsConfig, MeasurementMethodConfig,
    ReportingTriggersConfig, SbiClient, SbiSection, SmfConfig, SmfSection, SmfYaml,
    UrfProfileConfig, UrrIdAllocator, VolumeQuotaConfig, VolumeThresholdConfig,
};
use nextgcore::smf_report::{encode_session_message, handle_session_report};

fn empty_profile() -> UrfProfileConfig {
    UrfProfileConfig {
        measurement_method: None,
        reporting_triggers: None,
        measurement_period: None,
        volume_threshold: None,
        volume_quota: None,
        time_threshold: None,
        time_quota: None,
        quota_validity_time: None,
    }
}

fn volume_only_profile() -> UrfProfileConfig {
    UrfProfileConfig {
        measurement_method: Some(MeasurementMethodConfig {
            duration: Some(false),
            volume: Some(true),
            event: Some(false),
        }),
        ..empty_profile()
    }
}

fn section() -> SmfSection {
    SmfSection { sbi: None, apn_config_hash: None, urr_profile_hash: None, feature_flags: None }
}

#[test]
fn test_smf_config_default() {
    let config = SmfConfig::default();
    assert_eq!(config.sbi_port, 7777);
    assert_eq!(config.max_ue, 1024);
    assert!(config.nrf_uri.is_none());
    assert!(!config.feature_flags.usage_quota_enforcement);
}

#[test]
fn test_report_type_string_decodes_set_flags() {
    assert_eq!(report_type_string(0x00), "NONE");
    assert_eq!(report_type_string(0x01), "DLDR (Downlink Data Report)");
    assert_eq!(report_type_string(0x02), "USAR (Usage Report)");
    assert_eq!(report_type_string(0x04), "ERIR (Error Indication Report)");
    assert_eq!(report_type_string(0x08), "UPIR (User Plane Inactivity Report)");
    assert_eq!(report_type_string(0x10), "TMIR (TSC Management Information Report)");
    assert_eq!(report_type_string(0x20), "SESR (Session Report)");
    assert_eq!(report_type_string(0x40), "UISR (UP Initiated Session Request)");
    assert_eq!(
        report_type_string(0x03),
        "DLDR (Downlink Data Report), USAR (Usage Report)"
    );
    assert_eq!(
        report_type_string(0x7F),
        "DLDR (Downlink Data Report), USAR (Usage Report), \
         ERIR (Error Indication Report), UPIR (User Plane Inactivity Report), \
         TMIR (TSC Management Information Report), SESR (Session Report), \
         UISR (UP Initiated Session Request)"
    );
    assert_eq!(report_type_string(0x80), "NONE");
}

#[test]
fn test_urr_ids_are_monotonic_and_non_zero() {
    let mut ids = UrrIdAllocator::new();
    let first = ids.allocate_urr_id();
    let second = ids.allocate_urr_id();
    assert_ne!(first, 0);
    assert_ne!(second, 0);
    assert!(second > first);
}

#[test]
fn test_urr_ids_start_at_one_and_count_up() {
    let mut ids = UrrIdAllocator::new();
    for expected in 1u32..=100 {
        assert_eq!(ids.allocate_urr_id(), expected);
    }
}

#[test]
fn test_load_config_extracts_sbi_and_nrf_in_one_parse() {
    let yaml = SmfYaml {
        smf: Some(SmfSection {
            sbi: Some(SbiSection {
                server: Some(vec![AddrEntry {
                    address: Some("127.0.0.1".to_string()),
                    port: Some(8888),
                    uri: None,
                }]),
                client: Some(SbiClient {
                    nrf: Some(vec![AddrEntry {
                        address: None,
                        port: None,
                        uri: Some("http://nrf.example:7777".to_string()),
                    }]),
                }),
            }),
            ..section()
        }),
    };
    let config = config_from_yaml(yaml);
    assert_eq!(config.sbi_addr, "127.0.0.1");
    assert_eq!(config.sbi_port, 8888);
    assert_eq!(config.nrf_uri.as_deref(), Some("http://nrf.example:7777"));
}

#[test]
fn test_load_config_extracts_apn_and_urr_profile() {
    let profile = UrfProfileConfig {
        measurement_method: Some(MeasurementMethodConfig {
            duration: Some(false),
            volume: Some(true),
            event: Some(false),
        }),
        reporting_triggers: Some(ReportingTriggersConfig {
            periodic_reporting: Some(true),
            volume_threshold: Some(true),
            volume_quota_exhausted: Some(true),
            time_threshold: Some(true),
            time_quota_exhausted: Some(true),
        }),
        measurement_period: Some(3600),
        volume_threshold: Some(VolumeThresholdConfig {
            total_volume: Some(1024),
            uplink_volume: Some(512),
            downlink_volume: Some(512),
        }),
        volume_quota: Some(VolumeQuotaConfig {
            total_volume: Some(4096),
            uplink_volume: Some(2048),
            downlink_volume: Some(2048),
        }),
        time_threshold: Some(1800),
        time_quota: Some(7200),
        quota_validity_time: None,
    };
    let yaml = SmfYaml {
        smf: Some(SmfSection {
            sbi: Some(SbiSection {
                server: Some(vec![AddrEntry {
                    address: Some("127.0.0.1".to_string()),
                    port: Some(8888),
                    uri: None,
                }]),
                client: None,
            }),
            apn_config_hash: Some(vec![(
                "internet".to_string(),
                ApnConfigEntry {
                    apn_name: "internet.mnc001.mcc001.gprs".to_string(),
                    urr_profile_ref: Some("test_urr".to_string()),
                },
            )]),
            urr_profile_hash: Some(vec![("test_urr".to_string(), profile)]),
            feature_flags: Some(FeatureFlagsConfig { usage_quota_enforcement: true }),
        }),
    };
    let config = config_from_yaml(yaml);

    let apn = &config.apn_config_hash.iter().find(|(k, _)| k == "internet").unwrap().1;
    assert_eq!(apn.apn_name, "internet.mnc001.mcc001.gprs");
    assert_eq!(apn.urr_profile_ref.as_deref(), Some("test_urr"));
    assert!(config.feature_flags.usage_quota_enforcement);

    let profile = configured_urr_profile_for_apn(&config, "internet").expect("configured URR profile");
    assert_eq!(profile.measurement_period, Some(3600));
    assert_eq!(profile.time_threshold, Some(1800));
    assert_eq!(profile.time_quota, Some(7200));

    // The URR the DNN gets follows the profile.
    let mut ids = UrrIdAllocator::new();
    let urr = get_urr(&config, "internet", &mut ids).expect("enforcement on");
    assert_eq!(urr.urr_id, 1);
    assert_eq!(urr.measurement_method, (false, true, false));
    assert_eq!(urr.reporting_triggers, 0x010000 | 0x020000 | 0x040000 | 0x000100 | 0x000200);
    assert_eq!(urr.measurement_period, Some(3600));
    assert_eq!(urr.volume_threshold, Some((Some(1024), Some(512), Some(512))));
    assert_eq!(urr.volume_quota, Some((Some(4096), Some(2048), Some(2048))));
    assert_eq!(urr.time_threshold, Some(1800));
    assert_eq!(urr.time_quota, Some(7200));
}

#[test]
fn test_load_config_allows_apn_without_urr_profile_ref() {
    let yaml = SmfYaml {
        smf: Some(SmfSection {
            apn_config_hash: Some(vec![(
                "internet".to_string(),
                ApnConfigEntry { apn_name: "internet".to_string(), urr_profile_ref: None },
            )]),
            ..section()
        }),
    };
    let config = config_from_yaml(yaml);
    let apn = &config.apn_config_hash.iter().find(|(k, _)| k == "internet").expect("APN config entry").1;
    assert_eq!(apn.apn_name, "internet");
    assert!(apn.urr_profile_ref.is_none());
}

#[test]
fn test_config_without_smf_section_is_default() {
    let config = config_from_yaml(SmfYaml { smf: None });
    assert_eq!(config.sbi_addr, "0.0.0.0");
    assert_eq!(config.sbi_port, 7777);
    assert_eq!(config.max_sess, 4096);
    assert_eq!(config.max_bearer, 8192);
    assert!(config.apn_config_hash.is_empty());
}

#[test]
fn default_urr_profile_requires_default_configured_name() {
    let config = config_from_yaml(SmfYaml {
        smf: Some(SmfSection {
            urr_profile_hash: Some(vec![("another_profile".to_string(), volume_only_profile())]),
            ..section()
        }),
    });
    assert!(configured_urr_profile_for_apn(&config, "internet").is_none());

    let config = config_from_yaml(SmfYaml {
        smf: Some(SmfSection {
            urr_profile_hash: Some(vec![(
                "default_configured_urr".to_string(),
                volume_only_profile(),
            )]),
            ..section()
        }),
    });
    assert!(configured_urr_profile_for_apn(&config, "internet").is_some());
}

#[test]
fn resolve_shared_urr_profile_enforces_feature_flag() {
    let config = SmfConfig::default();
    let mut ids = UrrIdAllocator::new();
    let profile_opt = get_urr(&config, "test_dnn", &mut ids);
    assert!(profile_opt.is_none(), "get_urr should return None when enforcement is disabled");
}

#[test]
fn test_get_urr_falls_back_to_builtin_when_enforced() {
    let mut config = SmfConfig::default();
    config.feature_flags.usage_quota_enforcement = true;
    let mut ids = UrrIdAllocator::new();
    let urr = get_urr(&config, "test_dnn", &mut ids).expect("enforcement on");
    assert_eq!(urr.urr_id, 1);
    assert_eq!(urr.measurement_method, (false, true, false));
    assert_eq!(urr.reporting_triggers, 0x020000);
    assert_eq!(urr.volume_threshold, Some((Some(1024), None, None)));
    // A profile without triggers or method takes their defaults.
    config.urr_profile_hash.push(("default_configured_urr".to_string(), empty_profile()));
    let urr = get_urr(&config, "other", &mut ids).expect("enforcement on");
    assert_eq!(urr.urr_id, 2);
    assert_eq!(urr.measurement_method, (false, true, false));
    assert_eq!(urr.reporting_triggers, 0x020000);
    assert_eq!(urr.volume_threshold, None);
}

#[test]
fn resolve_shared_urr_profile_fallback_characteristics() {
    let mut ids = UrrIdAllocator::new();
    let default = default_urr_profile(&mut ids);
    assert_eq!(default.measurement_method, (false, true, false), "Volume measurement enabled");
    assert_eq!(default.reporting_triggers, 0x020000, "Volume threshold reporting enabled (VOLTH)");
    assert_eq!(
        default.volume_threshold,
        Some((Some(1024), None, None)),
        "Default volume threshold is 1024 bytes"
    );
}

#[test]
fn uri_path_extraction() {
    assert_eq!(
        uri_path("http://amf.example:7777/namf-comm/v1/ue-contexts/imsi-1/sm-context-status/7"),
        "/namf-comm/v1/ue-contexts/imsi-1/sm-context-status/7"
    );
    assert_eq!(uri_path("/already/a/path"), "/already/a/path");
    assert_eq!(uri_path("https://amf:443"), "/");
}

#[test]
fn test_parse_host_port_variants() {
    assert_eq!(parse_host_port("http://10.0.0.5:7777/nnrf"), Some(("10.0.0.5".to_string(), 7777)));
    assert_eq!(parse_host_port("https://nrf.example:29510"), Some(("nrf.example".to_string(), 29510)));
    assert_eq!(parse_host_port("http://nrf.example"), Some(("nrf.example".to_string(), 80)));
    assert_eq!(parse_host_port("https://nrf.example/x"), Some(("nrf.example".to_string(), 443)));
    assert_eq!(parse_host_port("http://nrf.example:99999"), None);
}

#[test]
fn test_parse_unsigned_range() {
    assert_eq!(parse_unsigned_range(b"x1234y", 1, 5, 0xFFFF), Some(1234));
    assert_eq!(parse_unsigned_range(b"70000", 0, 5, 0xFFFF), None);
    assert_eq!(parse_unsigned_range(b"12a", 0, 3, 0xFFFF), None);
    assert_eq!(parse_unsigned_range(b"", 0, 0, 0xFFFF), None);
}

#[test]
fn test_ipv4_from_octets() {
    assert_eq!(ipv4_from_octets(&[10, 45, 0, 1]), Some([10, 45, 0, 1]));
    assert_eq!(ipv4_from_octets(&[0u8; 16]), None);
    assert_eq!(ipv4_from_octets(&[]), None);
}

#[test]
fn test_smf_n4_seid_for() {
    assert_eq!(smf_n4_seid_for("7"), 7 | 0x1000);
    assert_eq!(smf_n4_seid_for("4096"), 4096);
    assert_eq!(smf_n4_seid_for("not-a-number"), 1 | 0x1000);
}

#[test]
fn test_self_sbi_uri() {
    assert_eq!(self_sbi_uri(None), "http://127.0.0.1:7777");
    assert_eq!(self_sbi_uri(Some("http://smf:80".to_string())), "http://smf:80");
}

#[test]
fn test_encode_session_message_header() {
    let m = encode_session_message(57, 0x0102030405060708, 0x00ABCDEF, &[0xAA]);
    assert_eq!(
        m,
        vec![0x21, 57, 0x00, 13, 1, 2, 3, 4, 5, 6, 7, 8, 0xAB, 0xCD, 0xEF, 0x00, 0xAA]
    );
}

fn report_request(seid: u64, seq: u32, body: &[u8]) -> Vec<u8> {
    encode_session_message(56, seid, seq, body)
}

#[test]
fn test_handle_session_report_too_short() {
    assert!(handle_session_report(&[0x21, 56, 0, 12]).is_none());
}

#[test]
fn test_handle_session_report_usage_report_accepted() {
    // Report Type USAR; Usage Report with URR ID 5 and a Volume Measurement
    // carrying total, uplink and downlink volumes.
    let mut body = vec![0x00, 39, 0x00, 0x01, 0x02];
    let mut vm = vec![0x07];
    vm.extend_from_slice(&300u64.to_be_bytes());
    vm.extend_from_slice(&100u64.to_be_bytes());
    vm.extend_from_slice(&200u64.to_be_bytes());
    let mut ur = vec![0x00, 81, 0x00, 0x04, 0, 0, 0, 5, 0x00, 66, 0x00, vm.len() as u8];
    ur.extend_from_slice(&vm);
    body.extend_from_slice(&[0x00, 80, 0x00, ur.len() as u8]);
    body.extend_from_slice(&ur);
    let pkt = report_request(0x55, 9, &body);

    let a = handle_session_report(&pkt).expect("long enough");
    assert_eq!(a.seid, 0x55);
    assert_eq!(a.seq, 9);
    assert_eq!(a.report_type, Some(0x02));
    assert!(a.dldr.is_none());
    assert_eq!(a.usage_reports.len(), 1);
    assert_eq!(a.usage_reports[0].urr_id, 5);
    assert_eq!(a.usage_reports[0].ul_volume, 100);
    assert_eq!(a.usage_reports[0].dl_volume, 200);
    assert_eq!(a.response, encode_session_message(57, 0x55, 9, &[0x00, 19, 0x00, 0x01, 1]));
}

#[test]
fn test_handle_session_report_dldr_names_pdr_and_qfi() {
    // Report Type DLDR; Downlink Data Report with PDR ID 3 and a DL Data
    // Service Information carrying QFI 9.
    let dldr = [0x00, 56, 0x00, 0x02, 0x00, 0x03, 0x00, 45, 0x00, 0x02, 0x02, 0x09];
    let mut body = vec![0x00, 39, 0x00, 0x01, 0x01, 0x00, 83, 0x00, dldr.len() as u8];
    body.extend_from_slice(&dldr);
    let a = handle_session_report(&report_request(1, 2, &body)).expect("long enough");
    let info = a.dldr.expect("DLDR flag").expect("report present");
    assert_eq!(info.pdr_id, Some(3));
    assert_eq!(info.qfi, Some(9));
}

#[test]
fn test_handle_session_report_missing_report_type_rejected() {
    let a = handle_session_report(&report_request(1, 2, &[])).expect("long enough");
    assert!(a.report_type.is_none());
    assert!(a.usage_reports.is_empty());
    // Cause 66 (Mandatory IE missing) with Offending IE 39.
    assert_eq!(
        a.response,
        encode_session_message(57, 1, 2, &[0x00, 19, 0x00, 0x01, 66, 0x00, 40, 0x00, 0x02, 0x00, 39])
    );
}
