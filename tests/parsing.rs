use apollo_scan::{ConfigurationError, parse_ports, parse_timing, split_list, Args, IpAddress, ScanConfig, ScanType, Timing};

fn args_with(ports: Option<&str>) -> Args {
    Args {
        target: "192.0.2.0/30".to_string(),
        scan_type: "Connect".to_string(),
        ports: ports.map(|p| p.to_string()),
        scripts: None,
        rate: None,
        timing: "normal".to_string(),
        output: None,
        apollo_stealth: false,
        zombie: None,
        decoys: None,
        fragment: false,
        data_length: None,
        ttl: None,
        source_port: None,
        max_retries: None,
        spoof_ip: None,
        random_mac: false,
        ids_bypass: false,
        custom_signature: None,
    }
}

#[test]
fn ports_comma_list() {
    assert_eq!(parse_ports(&Some("22,80,443".to_string())), vec![22, 80, 443]);
}

#[test]
fn ports_inclusive_range() {
    let ports = parse_ports(&Some("1-100".to_string()));
    assert_eq!(ports.len(), 100);
    assert_eq!(ports[0], 1);
    assert_eq!(ports[99], 100);
}

#[test]
fn ports_dash_means_all() {
    let ports = parse_ports(&Some("-".to_string()));
    assert_eq!(ports.len(), 65535);
    assert_eq!(ports[0], 1);
    assert_eq!(ports[65534], 65535);
}

#[test]
fn ports_default_list() {
    assert_eq!(
        parse_ports(&None),
        vec![21, 22, 23, 25, 53, 80, 110, 111, 135, 139, 143, 443, 993, 995, 1433, 3306, 3389, 5432, 6379, 27017]
    );
}

#[test]
fn ports_malformed_range_is_empty() {
    assert!(parse_ports(&Some("1-x".to_string())).is_empty());
    assert!(parse_ports(&Some("1-2-3".to_string())).is_empty());
    assert!(parse_ports(&Some("1-70000".to_string())).is_empty());
    assert!(parse_ports(&Some("100-1".to_string())).is_empty());
}

#[test]
fn ports_list_skips_bad_entries() {
    assert_eq!(parse_ports(&Some("22,abc,,+80,99999,443".to_string())), vec![22, 80, 443]);
}

#[test]
fn ports_single_and_zero() {
    assert_eq!(parse_ports(&Some("0".to_string())), vec![0]);
    assert_eq!(parse_ports(&Some("65535".to_string())), vec![65535]);
    assert_eq!(parse_ports(&Some("007".to_string())), vec![7]);
}

#[test]
fn timing_names_ignore_case() {
    assert_eq!(parse_timing("PARANOID"), Timing::Paranoid);
    assert_eq!(parse_timing("Sneaky"), Timing::Sneaky);
    assert_eq!(parse_timing("polite"), Timing::Polite);
    assert_eq!(parse_timing("aggressive"), Timing::Aggressive);
    assert_eq!(parse_timing("insane"), Timing::Insane);
    assert_eq!(parse_timing("Apocalyptic"), Timing::Apocalyptic);
    assert_eq!(parse_timing("normal"), Timing::Normal);
    assert_eq!(parse_timing("whatever"), Timing::Normal);
}

#[test]
fn timing_from_str_matches_parse() {
    let t: Timing = "INSANE".parse().unwrap();
    assert_eq!(t, Timing::Insane);
}

#[test]
fn scan_type_names() {
    assert!(matches!(ScanType::parse_name("SYN"), ScanType::Syn));
    assert!(matches!(ScanType::parse_name("apollo"), ScanType::Apollo));
    assert!(matches!(ScanType::parse_name("Xmas"), ScanType::Xmas));
    assert!(matches!(ScanType::parse_name("connect"), ScanType::Connect));
    match ScanType::parse_name("Banner") {
        ScanType::Custom(name) => assert_eq!(name, "Banner"),
        other => panic!("unexpected {:?}", other),
    }
    let parsed: ScanType = "udp".parse().unwrap();
    assert!(matches!(parsed, ScanType::Udp));
}

#[test]
fn list_splitting() {
    assert_eq!(split_list("a,b,,c"), vec!["a".to_string(), "b".to_string(), String::new(), "c".to_string()]);
    assert_eq!(split_list(""), vec![String::new()]);
}

#[test]
fn config_from_args() {
    let mut args = args_with(Some("22,80"));
    args.max_retries = None;
    args.scripts = Some("banner,vuln".to_string());
    args.timing = "Insane".to_string();
    let config = ScanConfig::from_args(&args, Some(vec![Some(IpAddress::V4(0x0A000001))]), None).unwrap();
    assert_eq!(config.target, "192.0.2.0/30");
    assert!(matches!(config.scan_type, ScanType::Connect));
    assert_eq!(config.ports, vec![22, 80]);
    assert_eq!(config.timing, Timing::Insane);
    assert_eq!(config.max_retries, 1);
    assert_eq!(config.scripts, vec!["banner".to_string(), "vuln".to_string()]);
    assert_eq!(config.decoys, Some(vec![IpAddress::V4(0x0A000001)]));
    assert_eq!(config.spoof_ip, None);
}

#[test]
fn config_without_scripts_has_one_empty_entry() {
    let mut args = args_with(None);
    args.max_retries = Some(4);
    let config = ScanConfig::from_args(&args, None, None).unwrap();
    assert_eq!(config.scripts, vec![String::new()]);
    assert_eq!(config.max_retries, 4);
    assert_eq!(config.ports.len(), 20);
}

#[test]
fn config_rejects_bad_evasion_addresses() {
    let args = args_with(None);
    let bad_decoy = ScanConfig::from_args(&args, Some(vec![Some(IpAddress::V4(1)), None]), None);
    assert_eq!(bad_decoy.unwrap_err(), ConfigurationError::InvalidDecoy);
    let bad_spoof = ScanConfig::from_args(&args, None, Some(None));
    assert_eq!(bad_spoof.unwrap_err(), ConfigurationError::InvalidSpoofAddress);
    let both = ScanConfig::from_args(&args, Some(vec![None]), Some(None));
    assert_eq!(both.unwrap_err(), ConfigurationError::InvalidDecoy);
    let good = ScanConfig::from_args(&args, Some(vec![]), Some(Some(IpAddress::V4(7)))).unwrap();
    assert_eq!(good.decoys, Some(vec![]));
    assert_eq!(good.spoof_ip, Some(IpAddress::V4(7)));
}
