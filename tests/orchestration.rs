use apollo_scan::{
    accept_lookup, admission_delay, build_jobs, fallback_action, get_timing_delay, get_timing_timeout,
    perform_port_scan, perform_scan, plan_probe, resolve_targets, settle_attempts, should_retry, tcp_connect_scan,
    Args, CompositeState, IpAddress, Observation, PortState, ProbeAction, ProbeJob, ProbeRecord, Resolution,
    ResolutionError, Response, ScanConfig, ScanType, TcpFlags, Timing,
};

fn config_for(target: &str, scan_type: &str, ports: &str) -> ScanConfig {
    let args = Args {
        target: target.to_string(),
        scan_type: scan_type.to_string(),
        ports: Some(ports.to_string()),
        scripts: None,
        rate: None,
        timing: "normal".to_string(),
        output: None,
        apollo_stealth: false,
        zombie: None,
        decoys: None,
        fragment: false,
        data_length: None,
        ttl: None,
        source_port: None,
        max_retries: None,
        spoof_ip: None,
        random_mac: false,
        ids_bypass: false,
        custom_signature: None,
    };
    ScanConfig::from_args(&args, None, None).unwrap()
}

#[test]
fn timing_defaults_and_order() {
    let order = [
        Timing::Paranoid,
        Timing::Sneaky,
        Timing::Polite,
        Timing::Normal,
        Timing::Aggressive,
        Timing::Insane,
        Timing::Apocalyptic,
    ];
    let delays: Vec<u64> = order.iter().map(get_timing_delay).collect();
    let timeouts: Vec<u64> = order.iter().map(get_timing_timeout).collect();
    assert_eq!(delays, vec![60000, 10000, 2000, 200, 20, 2, 0]);
    assert_eq!(timeouts, vec![20000, 10000, 5000, 2000, 1000, 200, 50]);
    for w in 0..6 {
        assert!(delays[w] >= delays[w + 1]);
        assert!(timeouts[w] >= timeouts[w + 1]);
    }
}

#[test]
fn resolve_block_of_four() {
    match resolve_targets("192.0.2.0/30", None).unwrap() {
        Resolution::Addresses(v) => assert_eq!(
            v,
            vec![
                IpAddress::V4(0xC0000200),
                IpAddress::V4(0xC0000201),
                IpAddress::V4(0xC0000202),
                IpAddress::V4(0xC0000203)
            ]
        ),
        Resolution::Lookup => panic!("block resolved as a name"),
    }
}

#[test]
fn resolve_rejects_bad_block() {
    assert_eq!(resolve_targets("192.0.2.1/30", None).unwrap_err(), ResolutionError::InvalidBlock);
    assert_eq!(resolve_targets("nonsense/8", None).unwrap_err(), ResolutionError::InvalidBlock);
    assert_eq!(resolve_targets("10.0.0.0/33", None).unwrap_err(), ResolutionError::InvalidBlock);
}

#[test]
fn resolve_literal_and_name() {
    let ip = IpAddress::V4(0x7F000001);
    match resolve_targets("127.0.0.1", Some(ip)).unwrap() {
        Resolution::Addresses(v) => assert_eq!(v, vec![ip]),
        Resolution::Lookup => panic!("literal resolved as a name"),
    }
    assert!(matches!(resolve_targets("example.test", None).unwrap(), Resolution::Lookup));
    assert_eq!(accept_lookup(vec![]).unwrap_err(), ResolutionError::NoAddresses);
    assert_eq!(accept_lookup(vec![ip]).unwrap(), vec![ip]);
}

#[test]
fn jobs_cross_product_in_order() {
    let a = IpAddress::V4(1);
    let b = IpAddress::V4(2);
    let jobs = build_jobs(&vec![a, b], &vec![22, 80, 443]);
    assert_eq!(jobs.len(), 6);
    assert_eq!(jobs[0], ProbeJob { target: a, port: 22 });
    assert_eq!(jobs[2], ProbeJob { target: a, port: 443 });
    assert_eq!(jobs[3], ProbeJob { target: b, port: 22 });
    assert_eq!(jobs[5], ProbeJob { target: b, port: 443 });
    assert!(build_jobs(&vec![a], &vec![]).is_empty());
}

#[test]
fn planning_and_fallback() {
    let c = CompositeState::new();
    assert_eq!(plan_probe(&ScanType::Syn, false, &c), ProbeAction::RawTcp(TcpFlags::Syn));
    assert_eq!(plan_probe(&ScanType::Xmas, false, &c), ProbeAction::RawTcp(TcpFlags::Xmas));
    assert_eq!(plan_probe(&ScanType::Udp, false, &c), ProbeAction::Udp);
    assert_eq!(plan_probe(&ScanType::Idle, true, &c), ProbeAction::ZombieRelay);
    assert_eq!(plan_probe(&ScanType::Idle, false, &c), ProbeAction::RawTcp(TcpFlags::Syn));
    assert_eq!(plan_probe(&ScanType::Custom("x".to_string()), false, &c), ProbeAction::Connect);
    assert_eq!(fallback_action(ProbeAction::RawTcp(TcpFlags::Syn)), Some(ProbeAction::Connect));
    assert_eq!(fallback_action(ProbeAction::Udp), None);
}

#[test]
fn retry_bound_on_always_filtered() {
    let filtered: Vec<_> = (0..5).map(|i| tcp_connect_scan(22, Response::Silent, Timing::Normal, i)).collect();
    assert_eq!(settle_attempts(3, &filtered), 2);
    assert_eq!(settle_attempts(1, &filtered), 0);
    assert_eq!(settle_attempts(0, &filtered), 0);
    assert!(should_retry(1, 3, PortState::Filtered));
    assert!(should_retry(2, 3, PortState::Filtered));
    assert!(!should_retry(3, 3, PortState::Filtered));
    assert!(!should_retry(1, 1, PortState::Filtered));
    assert!(!should_retry(1, 3, PortState::Open));
}

#[test]
fn retry_stops_at_first_clear_answer() {
    let attempts = vec![
        tcp_connect_scan(22, Response::Silent, Timing::Normal, 1),
        tcp_connect_scan(22, Response::Accepted, Timing::Normal, 2),
        tcp_connect_scan(22, Response::Silent, Timing::Normal, 3),
    ];
    assert_eq!(settle_attempts(3, &attempts), 1);
}

#[test]
fn admission_only_with_rate_limit() {
    assert_eq!(admission_delay(Some(10), &Timing::Polite), Some(2000));
    assert_eq!(admission_delay(None, &Timing::Polite), None);
}

#[test]
fn port_scan_keeps_target() {
    let t = IpAddress::V4(9);
    let (ip, r) = perform_port_scan(t, 21, &ScanType::Connect, ProbeAction::Connect, Observation::Reply(Response::Accepted), Timing::Normal, 4);
    assert_eq!(ip, t);
    assert_eq!(r.service.as_deref(), Some("ftp"));
    let (_, z) = perform_port_scan(t, 21, &ScanType::Idle, ProbeAction::ZombieRelay, Observation::Zombie { baseline: 100, after: 102 }, Timing::Normal, 4);
    assert_eq!(z.state, PortState::Open);
}

#[test]
fn end_to_end_block_scan() {
    let config = config_for("192.0.2.0/30", "connect", "22,80");
    let targets = match resolve_targets(&config.target, None).unwrap() {
        Resolution::Addresses(v) => v,
        Resolution::Lookup => panic!("block resolved as a name"),
    };
    let jobs = build_jobs(&targets, &config.ports);
    assert_eq!(jobs.len(), 8);
    let records: Vec<ProbeRecord> = jobs
        .iter()
        .map(|j| ProbeRecord {
            action: ProbeAction::Connect,
            observed: Observation::Reply(if j.port == 22 { Response::Accepted } else { Response::Reset }),
            elapsed_us: 10,
        })
        .collect();
    let report = perform_scan(&config, &targets, &records);
    assert_eq!(report.summary.total_hosts, 4);
    assert_eq!(report.summary.total_ports, 8);
    assert_eq!(report.summary.open_ports, 4);
    assert_eq!(report.targets.len(), 4);
    for (i, t) in report.targets.iter().enumerate() {
        assert_eq!(t.ip, targets[i]);
        assert_eq!(t.ports.len(), 2);
        assert_eq!(t.ports[0].port, 22);
        assert_eq!(t.ports[0].state, PortState::Open);
        assert_eq!(t.ports[1].port, 80);
        assert_eq!(t.ports[1].state, PortState::Closed);
    }
}

#[test]
fn failed_sends_are_filtered() {
    let config = config_for("192.0.2.0/31", "udp", "53,161");
    let targets = vec![IpAddress::V4(0xC0000200), IpAddress::V4(0xC0000201)];
    let records = vec![
        ProbeRecord { action: ProbeAction::Udp, observed: Observation::Reply(Response::SendFailed), elapsed_us: 1 };
        4
    ];
    let report = perform_scan(&config, &targets, &records);
    assert_eq!(report.summary.total_hosts, 2);
    assert_eq!(report.summary.total_ports, 4);
    assert_eq!(report.summary.open_ports, 0);
    for t in &report.targets {
        for r in &t.ports {
            assert_eq!(r.state, PortState::Filtered);
            assert_eq!(r.reason, "send-failed");
            assert_eq!(r.protocol, "udp");
        }
    }
}
