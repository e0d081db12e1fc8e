use nextgcore::energy::EnergySavingState;
use nextgcore::sbi_text::parse_host_port;
use nextgcore::upf_rules::parse_pdi;

#[test]
fn test_parse_host_port() {
    assert_eq!(parse_host_port("http://127.0.0.10:7777"), Some(("127.0.0.10".to_string(), 7777)));
    assert_eq!(
        parse_host_port("https://nrf.example:443/nnrf-nfm/v1"),
        Some(("nrf.example".to_string(), 443))
    );
    assert_eq!(parse_host_port("http://nrf.local"), Some(("nrf.local".to_string(), 80)));
}

#[test]
fn test_energy_saving_enters_low_power_after_threshold() {
    let mut e = EnergySavingState::new(30, 100);
    assert!(!e.is_low_power());
    assert!(!e.check_inactivity(130), "exactly the threshold is not inactive");
    assert!(!e.is_low_power());
    assert!(e.check_inactivity(131));
    assert!(e.is_low_power());
    e.record_activity(140);
    assert!(!e.is_low_power());
    assert!(!e.check_inactivity(150));
    // A clock that goes back counts as no time elapsed.
    assert!(!e.check_inactivity(10));
}

#[test]
fn test_lossy_text_of_invalid_utf8_flow_description() {
    // An SDF Filter whose flow description holds an invalid UTF-8 octet is
    // still read, with the octet replaced.
    let desc = [b'p', b'e', 0xFF, b'r'];
    let mut pdi = vec![0x00, 0x14, 0x00, 0x01, 0x00];
    pdi.extend_from_slice(&[0x00, 0x17, 0x00, 0x08, 0x01, 0x00, 0x00, 0x04]);
    pdi.extend_from_slice(&desc);
    let parsed = parse_pdi(&pdi).unwrap();
    assert_eq!(parsed.sdf_flow_description.as_deref(), Some("pe\u{FFFD}r"));
}
