use btc_toolkit::errors::ScannerError;
use btc_toolkit::network::scanner::{MinerFirmware, MinerMake, ScanConfig};
use btc_toolkit::network::{
    contains_char, create_configured_miner_factory, create_miner_factory, detect_range_form,
    estimate_ip_count, is_blank_text, is_whitespace_char, range_outcome, HostRange, RangeForm,
};

fn invalid_reason(outcome: Result<HostRange, ScannerError>) -> String {
    match outcome {
        Err(ScannerError::NetworkRangeInvalid(reason)) => reason,
        other => panic!("expected an invalid range, got {:?}", other),
    }
}

#[test]
fn range_form_is_read_off_the_punctuation() {
    assert_eq!(detect_range_form(""), RangeForm::Blank);
    assert_eq!(detect_range_form("   "), RangeForm::Blank);
    assert_eq!(detect_range_form(" \t\n"), RangeForm::Blank);
    assert_eq!(detect_range_form("192.168.1.0/24"), RangeForm::Cidr);
    assert_eq!(detect_range_form("192.168.1.1-100"), RangeForm::Span);
    assert_eq!(detect_range_form("10.0.0.1-5/24"), RangeForm::Cidr);
    assert_eq!(detect_range_form("192.168.1.1"), RangeForm::Unsupported);
    assert_eq!(detect_range_form("not a range"), RangeForm::Unsupported);
    assert_eq!(detect_range_form("not-a-range"), RangeForm::Span);
    assert_eq!(detect_range_form("fe80::/64"), RangeForm::Unsupported);
}

#[test]
fn white_space_characters() {
    assert!(is_whitespace_char(' '));
    assert!(is_whitespace_char('\t'));
    assert!(is_whitespace_char('\n'));
    assert!(is_whitespace_char('\u{A0}'));
    assert!(is_whitespace_char('\u{3000}'));
    assert!(!is_whitespace_char('a'));
    assert!(!is_whitespace_char('0'));
    assert!(!is_whitespace_char('\u{200B}'));
    for code in 0u32..0x3100 {
        if let Some(c) = char::from_u32(code) {
            assert_eq!(is_whitespace_char(c), c.is_whitespace());
        }
    }
}

#[test]
fn blank_text_and_contained_characters() {
    assert!(is_blank_text(""));
    assert!(is_blank_text(" \u{2003} "));
    assert!(!is_blank_text(" x "));
    assert!(contains_char("a/b", '/'));
    assert!(!contains_char("a-b", '/'));
    assert!(!contains_char("", '-'));
    assert_eq!(is_blank_text(" \r\n\t"), " \r\n\t".trim().is_empty());
}

#[test]
fn cidr_block_is_counted() {
    let hosts = create_miner_factory("192.168.1.0/24").unwrap();
    assert_eq!(hosts.form, RangeForm::Cidr);
    assert_eq!(hosts.host_count, 256);
    let small = create_miner_factory("10.0.0.0/30").unwrap();
    assert_eq!(small, HostRange { form: RangeForm::Cidr, host_count: 4 });
    let single = create_miner_factory("10.0.0.7/32").unwrap();
    assert_eq!(single.host_count, 1);
}

#[test]
fn dashed_span_is_counted() {
    let hosts = create_miner_factory("192.168.1.1-100").unwrap();
    assert_eq!(hosts, HostRange { form: RangeForm::Span, host_count: 100 });
    let wide = create_miner_factory("10.1-2.0.1-50").unwrap();
    assert_eq!(wide.host_count, 100);
}

#[test]
fn blank_range_is_refused() {
    assert_eq!(invalid_reason(create_miner_factory("")), "Network range cannot be empty");
    assert_eq!(invalid_reason(create_miner_factory("   ")), "Network range cannot be empty");
}

#[test]
fn range_in_no_supported_form_is_refused() {
    assert_eq!(
        invalid_reason(create_miner_factory("192.168.1.1")),
        "Invalid format '192.168.1.1'. Use CIDR (192.168.1.0/24) or range (192.168.1.1-100)"
    );
    assert_eq!(
        invalid_reason(create_miner_factory("fe80::/64")),
        "Invalid format 'fe80::/64'. Use CIDR (192.168.1.0/24) or range (192.168.1.1-100)"
    );
}

#[test]
fn malformed_cidr_is_refused_with_the_reason() {
    let reason = invalid_reason(create_miner_factory("10.0.0.0/33"));
    assert!(reason.starts_with("Invalid CIDR '10.0.0.0/33': "));
    assert!(reason.len() > "Invalid CIDR '10.0.0.0/33': ".len());
    let other = invalid_reason(create_miner_factory("hello/world"));
    assert!(other.starts_with("Invalid CIDR 'hello/world': "));
}

#[test]
fn malformed_span_is_refused_with_the_reason() {
    let reason = invalid_reason(create_miner_factory("not-a-range"));
    assert!(reason.starts_with("Invalid range 'not-a-range': "));
    assert!(reason.len() > "Invalid range 'not-a-range': ".len());
    let backwards = invalid_reason(create_miner_factory("10.0.0.9-1"));
    assert!(backwards.starts_with("Invalid range '10.0.0.9-1': "));
}

#[test]
fn estimate_counts_hosts_and_takes_a_refused_range_as_empty() {
    assert_eq!(estimate_ip_count("192.168.1.0/24"), 256);
    assert_eq!(estimate_ip_count("192.168.1.1-100"), 100);
    assert_eq!(estimate_ip_count("10.0.1.0/24"), 256);
    assert_eq!(estimate_ip_count("not-a-range"), 0);
    assert_eq!(estimate_ip_count(""), 0);
    assert_eq!(estimate_ip_count("192.168.1.1"), 0);
}

#[test]
fn outcome_follows_the_answer_it_is_given() {
    assert_eq!(
        range_outcome("10.0.0.0/24", RangeForm::Cidr, Ok(256)),
        Ok(HostRange { form: RangeForm::Cidr, host_count: 256 })
    );
    assert_eq!(
        range_outcome("1.2.3.4-9", RangeForm::Span, Ok(6)),
        Ok(HostRange { form: RangeForm::Span, host_count: 6 })
    );
    assert_eq!(
        range_outcome("x/y", RangeForm::Cidr, Err("no".to_string())),
        Err(ScannerError::NetworkRangeInvalid("Invalid CIDR 'x/y': no".to_string()))
    );
    assert_eq!(
        range_outcome("x-y", RangeForm::Span, Err("no".to_string())),
        Err(ScannerError::NetworkRangeInvalid("Invalid range 'x-y': no".to_string()))
    );
    assert_eq!(
        range_outcome("", RangeForm::Blank, Ok(5)),
        Err(ScannerError::NetworkRangeInvalid("Network range cannot be empty".to_string()))
    );
    assert_eq!(
        range_outcome("zz", RangeForm::Unsupported, Ok(5)),
        Err(ScannerError::NetworkRangeInvalid(
            "Invalid format 'zz'. Use CIDR (192.168.1.0/24) or range (192.168.1.1-100)".to_string()
        ))
    );
}

#[test]
fn configured_plan_carries_the_filters() {
    let config = ScanConfig {
        search_makes: Some(vec![MinerMake::AntMiner, MinerMake::BitAxe]),
        search_firmwares: None,
    };
    let plan = create_configured_miner_factory("10.0.0.0/30", &config).unwrap();
    assert_eq!(plan.hosts.host_count, 4);
    assert_eq!(plan.search_makes, Some(vec![MinerMake::AntMiner, MinerMake::BitAxe]));
    assert_eq!(plan.search_firmwares, None);

    let both = ScanConfig {
        search_makes: None,
        search_firmwares: Some(vec![MinerFirmware::VNish]),
    };
    let plan = create_configured_miner_factory("10.0.0.1-2", &both).unwrap();
    assert_eq!(plan.hosts.host_count, 2);
    assert_eq!(plan.search_makes, None);
    assert_eq!(plan.search_firmwares, Some(vec![MinerFirmware::VNish]));

    let refused = create_configured_miner_factory("nonsense", &ScanConfig::default());
    assert!(matches!(refused, Err(ScannerError::NetworkRangeInvalid(_))));
}
