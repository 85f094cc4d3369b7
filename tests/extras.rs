use apollo_scan::fingerprint::fingerprint_from_data;
use apollo_scan::scan::expand_block;
use apollo_scan::{
    build_jobs, plan_evasion, scan_jobs, Args, EvasionTechnique, IpAddress, Observation, PortState, ProbeAction,
    Response, ScanConfig, ScanResults, ScanType, Timing,
};

#[test]
fn lowercase_inputs_select_by_exact_name() {
    assert_eq!(Timing::from_lowercase("sneaky"), Timing::Sneaky);
    assert_eq!(Timing::from_lowercase("SNEAKY"), Timing::Normal);
    assert!(matches!(ScanType::from_lowercase("FIN", "fin"), ScanType::Fin));
    match ScanType::from_lowercase("Probe", "probe") {
        ScanType::Custom(n) => assert_eq!(n, "Probe"),
        other => panic!("unexpected {:?}", other),
    }
}

#[test]
fn block_expansion_sizes() {
    assert_eq!(expand_block(0x0A000000, 32), vec![IpAddress::V4(0x0A000000)]);
    assert_eq!(expand_block(0x0A000000, 31), vec![IpAddress::V4(0x0A000000), IpAddress::V4(0x0A000001)]);
    let v = expand_block(0xFFFFFF00, 24);
    assert_eq!(v.len(), 256);
    assert_eq!(v[255], IpAddress::V4(0xFFFFFFFF));
}

#[test]
fn fingerprint_carries_given_data() {
    let f = fingerprint_from_data("abc".to_string());
    assert_eq!(f.raw_packet_data.as_deref(), Some("abc"));
    assert_eq!(f.tcp_sequence, "64K (65536)");
    assert_eq!(f.ip_id_sequence, "Incremental");
}

#[test]
fn evasion_plan_order() {
    let args = Args {
        target: "10.0.0.1".to_string(),
        scan_type: "syn".to_string(),
        ports: None,
        scripts: None,
        rate: None,
        timing: "normal".to_string(),
        output: None,
        apollo_stealth: false,
        zombie: None,
        decoys: None,
        fragment: true,
        data_length: None,
        ttl: None,
        source_port: None,
        max_retries: None,
        spoof_ip: Some("10.0.0.2".to_string()),
        random_mac: false,
        ids_bypass: true,
        custom_signature: None,
    };
    let config = ScanConfig::from_args(&args, None, Some(Some(IpAddress::V4(0x0A000002)))).unwrap();
    assert_eq!(
        plan_evasion(&config),
        vec![EvasionTechnique::Fragmentation, EvasionTechnique::IdsBypass, EvasionTechnique::SourceSpoofing]
    );
}

#[test]
fn every_job_yields_one_outcome() {
    let targets = vec![IpAddress::V4(1), IpAddress::V4(2), IpAddress::V4(3)];
    let ports = vec![22u16, 80];
    let jobs = build_jobs(&targets, &ports);
    let n = jobs.len();
    let actions = vec![ProbeAction::Connect; n];
    let observed = vec![Observation::Reply(Response::Silent); n];
    let elapsed = vec![1u64; n];
    let outcomes = scan_jobs(&jobs, &ScanType::Connect, &actions, &observed, &elapsed, Timing::Normal);
    assert_eq!(outcomes.len(), targets.len() * ports.len());
    for (job, (ip, r)) in jobs.iter().zip(outcomes.iter()) {
        assert_eq!(*ip, job.target);
        assert_eq!(r.port, job.port);
        assert_eq!(r.state, PortState::Filtered);
    }
    let mut report = ScanResults::new();
    report.record_outcomes(outcomes);
    assert_eq!(report.summary.total_ports, 6);
    assert_eq!(report.summary.total_hosts, 3);
    assert_eq!(report.summary.open_ports, 0);
}
