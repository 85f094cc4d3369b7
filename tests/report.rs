use apollo_scan::{
    apply_stealth_modifications, run_custom_scripts, tcp_connect_scan, Args, IpAddress, PortState, Response,
    ScanConfig, ScanResults, Timing,
};

#[test]
fn new_report_is_empty() {
    let r = ScanResults::new();
    assert!(r.targets.is_empty());
    assert_eq!(r.summary.total_ports, 0);
    assert_eq!(r.scan_stats.start_time, r.timestamp);
    assert!(r.evasion_report.is_none());
}

#[test]
fn add_result_groups_by_target() {
    let mut r = ScanResults::new();
    let a = IpAddress::V4(1);
    let b = IpAddress::V6(2);
    r.add_result(a, tcp_connect_scan(22, Response::Accepted, Timing::Normal, 1));
    r.add_result(b, tcp_connect_scan(22, Response::Reset, Timing::Normal, 1));
    r.add_result(a, tcp_connect_scan(80, Response::Silent, Timing::Normal, 1));
    assert_eq!(r.summary.total_hosts, 2);
    assert_eq!(r.summary.total_ports, 3);
    assert_eq!(r.summary.open_ports, 1);
    assert_eq!(r.targets[0].ip, a);
    assert_eq!(r.targets[0].ports.len(), 2);
    assert_eq!(r.targets[0].ports[1].state, PortState::Filtered);
    assert_eq!(r.targets[1].ip, b);
}

#[test]
fn finalize_records_duration() {
    let mut r = ScanResults::new();
    r.scan_stats.start_time = 1_000;
    r.finalize_at(3_500);
    assert_eq!(r.scan_stats.end_time, Some(3_500));
    assert_eq!(r.scan_stats.duration, Some(2_500));
    r.finalize_at(500);
    assert_eq!(r.scan_stats.duration, Some(0));
    r.finalize();
    assert!(r.scan_stats.end_time.is_some());
}

#[test]
fn stealth_names_requested_techniques() {
    let args = Args {
        target: "10.0.0.1".to_string(),
        scan_type: "syn".to_string(),
        ports: None,
        scripts: None,
        rate: None,
        timing: "normal".to_string(),
        output: None,
        apollo_stealth: true,
        zombie: None,
        decoys: Some("10.0.0.9".to_string()),
        fragment: true,
        data_length: None,
        ttl: None,
        source_port: None,
        max_retries: None,
        spoof_ip: None,
        random_mac: true,
        ids_bypass: false,
        custom_signature: None,
    };
    let config = ScanConfig::from_args(&args, Some(vec![Some(IpAddress::V4(0x0A000009))]), None).unwrap();
    let mut r = ScanResults::new();
    apply_stealth_modifications(&mut r, &config);
    let expected = vec![
        "IP Fragmentation".to_string(),
        "Random MAC Address".to_string(),
        "Decoy Host Obfuscation".to_string(),
    ];
    assert_eq!(r.scan_stats.evasion_techniques_used, expected);
    let rep = r.evasion_report.unwrap();
    assert_eq!(rep.techniques_successful, expected);
    assert_eq!(rep.packet_modifications, expected);
    assert_eq!(rep.ids_avoided, vec!["Generic Pattern Matching".to_string(), "Statistical Anomaly Detection".to_string()]);
    assert_eq!(rep.firewall_bypassed, Some(true));
}

#[test]
fn stealth_without_flags_adds_nothing() {
    let args = Args {
        target: "10.0.0.1".to_string(),
        scan_type: "syn".to_string(),
        ports: None,
        scripts: None,
        rate: None,
        timing: "normal".to_string(),
        output: None,
        apollo_stealth: true,
        zombie: None,
        decoys: None,
        fragment: false,
        data_length: None,
        ttl: None,
        source_port: None,
        max_retries: None,
        spoof_ip: None,
        random_mac: false,
        ids_bypass: false,
        custom_signature: None,
    };
    let config = ScanConfig::from_args(&args, None, None).unwrap();
    let mut r = ScanResults::new();
    apply_stealth_modifications(&mut r, &config);
    assert!(r.scan_stats.evasion_techniques_used.is_empty());
    assert!(r.evasion_report.is_none());
}

#[test]
fn scripts_leave_report_unchanged() {
    let mut r = ScanResults::new();
    r.add_result(IpAddress::V4(5), tcp_connect_scan(22, Response::Accepted, Timing::Normal, 1));
    assert!(run_custom_scripts(&mut r, &vec!["banner".to_string()]).is_ok());
    assert_eq!(r.summary.total_ports, 1);
}
