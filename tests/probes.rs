use apollo_scan::{
    ack_scan, apollo_scan, attempt_syn_scan, decoy_scan, detect_service, fin_scan, fragment_scan,
    idle_scan, null_scan, syn_scan, tcp_connect_scan, udp_scan, CompositeState, PortState, ProbeAction,
    Response, TcpFlags, Timing,
};

#[test]
fn connect_accepted_is_open() {
    let r = tcp_connect_scan(22, Response::Accepted, Timing::Normal, 1500);
    assert_eq!(r.port, 22);
    assert_eq!(r.protocol, "tcp");
    assert_eq!(r.state, PortState::Open);
    assert_eq!(r.confidence, 1000);
    assert_eq!(r.reason, "syn-ack");
    assert_eq!(r.service.as_deref(), Some("ssh"));
    assert_eq!(r.response_time, Some(1500));
}

#[test]
fn connect_repeated_on_open_port_agrees() {
    for elapsed in [10u64, 20, 30] {
        let r = tcp_connect_scan(443, Response::Accepted, Timing::Normal, elapsed);
        assert_eq!(r.state, PortState::Open);
        assert_eq!(r.confidence, 1000);
    }
}

#[test]
fn connect_refused_unreachable_timeout() {
    let closed = tcp_connect_scan(81, Response::Reset, Timing::Normal, 5);
    assert_eq!(closed.state, PortState::Closed);
    assert_eq!(closed.reason, "rst");
    assert_eq!(closed.service, None);
    let unreach = tcp_connect_scan(81, Response::Unreachable, Timing::Normal, 5);
    assert_eq!(unreach.state, PortState::Filtered);
    assert_eq!(unreach.confidence, 800);
    assert_eq!(unreach.reason, "host-unreach");
    let timeout = tcp_connect_scan(81, Response::Silent, Timing::Normal, 5);
    assert_eq!(timeout.state, PortState::Filtered);
    assert_eq!(timeout.reason, "timeout");
    assert_eq!(timeout.response_time, Some(2_000_000));
    let failed = tcp_connect_scan(81, Response::SendFailed, Timing::Normal, 5);
    assert_eq!(failed.state, PortState::Filtered);
    assert_eq!(failed.confidence, 500);
    assert_eq!(failed.reason, "send-failed");
}

#[test]
fn syn_table_and_fallback() {
    let open = attempt_syn_scan(80, Response::Accepted, Timing::Normal, 7);
    assert_eq!(open.state, PortState::Open);
    assert_eq!(open.confidence, 980);
    assert_eq!(open.reason, "syn-ack-received");
    assert_eq!(open.service.as_deref(), Some("http"));
    let closed = syn_scan(80, Some(Response::Reset), Timing::Normal, 7).unwrap();
    assert_eq!(closed.state, PortState::Closed);
    let filtered = syn_scan(80, Some(Response::Silent), Timing::Normal, 7).unwrap();
    assert_eq!(filtered.state, PortState::Filtered);
    assert!(syn_scan(80, None, Timing::Normal, 7).is_none());
}

#[test]
fn flag_probes_silence_and_reset() {
    for f in [fin_scan, null_scan, xmas_scan_wrapper] {
        let silent = f(8080, Response::Silent);
        assert_eq!(silent.state, PortState::OpenFiltered);
        assert_eq!(silent.confidence, 850);
        assert_eq!(silent.reason, "no-response");
        let reset = f(8080, Response::Reset);
        assert_eq!(reset.state, PortState::Closed);
    }
}

fn xmas_scan_wrapper(port: u16, r: Response) -> apollo_scan::PortResult {
    apollo_scan::xmas_scan(port, r)
}

#[test]
fn ack_probe_maps_firewall() {
    let r = ack_scan(22, Response::Reset);
    assert_eq!(r.state, PortState::Unfiltered);
    assert_eq!(r.confidence, 900);
    assert_eq!(ack_scan(22, Response::Silent).state, PortState::Filtered);
}

#[test]
fn udp_table() {
    let open = udp_scan(53, Response::Datagram, Timing::Normal, 900);
    assert_eq!(open.protocol, "udp");
    assert_eq!(open.state, PortState::Open);
    assert_eq!(open.confidence, 900);
    assert_eq!(open.service.as_deref(), Some("dns"));
    let silent = udp_scan(53, Response::Silent, Timing::Aggressive, 900);
    assert_eq!(silent.state, PortState::OpenFiltered);
    assert_eq!(silent.confidence, 600);
    assert_eq!(silent.response_time, Some(1_000_000));
    assert_eq!(udp_scan(53, Response::RecvError, Timing::Normal, 1).confidence, 700);
    assert_eq!(udp_scan(53, Response::Unreachable, Timing::Normal, 1).state, PortState::Filtered);
    let bind = udp_scan(53, Response::BindFailed, Timing::Normal, 1);
    assert_eq!(bind.state, PortState::Filtered);
    assert_eq!(bind.confidence, 300);
    assert_eq!(bind.reason, "socket-bind-failed");
}

#[test]
fn idle_zombie_readings() {
    let open = idle_scan(80, 100, 102);
    assert_eq!(open.state, PortState::Open);
    assert_eq!(open.reason, "idle-increment-detected");
    let closed = idle_scan(80, 100, 101);
    assert_eq!(closed.state, PortState::ClosedFiltered);
    assert_eq!(idle_scan(80, 65535, 1).state, PortState::Open);
    assert_eq!(idle_scan(80, 100, 110).state, PortState::Filtered);
}

#[test]
fn fragment_and_decoy_follow_syn_table() {
    let f = fragment_scan(22, Some(Response::Accepted)).unwrap();
    assert_eq!(f.state, PortState::Open);
    assert_eq!(f.confidence, 920);
    assert_eq!(f.reason, "fragment-response");
    assert_eq!(fragment_scan(22, Some(Response::Reset)).unwrap().state, PortState::Closed);
    let d = decoy_scan(22, Some(Response::Accepted)).unwrap();
    assert_eq!(d.confidence, 930);
    assert_eq!(d.reason, "decoy-masked-response");
    assert!(decoy_scan(22, None).is_none());
}

#[test]
fn composite_switches_after_raw_failures() {
    let mut c = CompositeState::new();
    assert_eq!(c.pick(), ProbeAction::RawTcp(TcpFlags::Syn));
    c.observe(false);
    c.observe(true);
    c.observe(false);
    assert_eq!(c.pick(), ProbeAction::RawTcp(TcpFlags::Syn));
    c.observe(false);
    assert_eq!(c.pick(), ProbeAction::Connect);
    assert_eq!(c.probes, 4);
    let r = apollo_scan(22, &c, Response::Accepted, Timing::Normal, 3);
    assert_eq!(r.confidence, 1000);
    assert_eq!(r.reason, "syn-ack");
}

#[test]
fn services_of_known_ports() {
    assert_eq!(detect_service(3389).as_deref(), Some("ms-wbt-server"));
    assert_eq!(detect_service(27017).as_deref(), Some("mongodb"));
    assert_eq!(detect_service(8080), None);
}
