//! The probe engine: what each technique sends, and how what came back is
//! classified into a port state with a confidence and a reason code.
//!
//! Sending and receiving happen outside; they report a `Response` (or, for
//! the idle technique, two zombie IP-identifier readings), and the functions
//! here decide the outcome.
use crate::timing::{get_timing_timeout, timeout_ms, Timing};
use crate::types::{PortResult, PortState};
use vstd::prelude::*;
use vstd::string::*;

verus! {

/// What came back for one probe, by class.
#[derive(Debug, Clone, Copy, PartialEq, Eq, Structural)]
pub enum Response {
    /// The target accepted: a completed handshake, or a SYN-ACK.
    Accepted,
    /// The target reset: an RST, or a refused connection.
    Reset,
    /// An ICMP unreachable, or a host-unreachable error.
    Unreachable,
    /// A UDP datagram came back.
    Datagram,
    /// Nothing came back before the timeout.
    Silent,
    /// The local socket could not be opened or bound.
    BindFailed,
    /// Sending the probe failed.
    SendFailed,
    /// Receiving failed.
    RecvError,
}

/// The flag combination of a crafted TCP segment.
#[derive(Debug, Clone, Copy, PartialEq, Eq, Structural)]
pub enum TcpFlags {
    Syn,
    Fin,
    Null,
    Xmas,
    Ack,
}

/// The network operation a probe performs.
#[derive(Debug, Clone, Copy, PartialEq, Eq, Structural)]
pub enum ProbeAction {
    /// A full TCP handshake attempt.
    Connect,
    /// One crafted TCP segment, which needs raw packet access.
    RawTcp(TcpFlags),
    /// An empty UDP datagram.
    Udp,
    /// The idle sequence through a zombie host: read its IP identifier, send
    /// a probe spoofed from it, read the identifier again.
    ZombieRelay,
}

/// The response-to-state table a probe is classified with.
#[derive(Debug, Clone, Copy, PartialEq, Eq, Structural)]
pub enum Table {
    Connect,
    Syn,
    /// FIN, NULL and Xmas probes.
    NoAck,
    Ack,
    Udp,
    Fragment,
    Decoy,
}

/// The classification of a response: state, confidence in thousandths, and
/// reason code.
pub type Verdict = (PortState, u16, Seq<char>);

/// Failures on the local side: filtered, with a confidence that says how
/// little was learned.
pub open spec fn transport_verdict(r: Response) -> Verdict {
    match r {
        Response::BindFailed => (PortState::Filtered, 300, "socket-bind-failed"@),
        Response::SendFailed => (PortState::Filtered, 500, "send-failed"@),
        _ => (PortState::Filtered, 700, "recv-error"@),
    }
}

/// A reply of a kind the probe cannot draw on.
pub open spec fn unexpected_verdict() -> Verdict {
    (PortState::Filtered, 500, "unexpected-reply"@)
}

/// The half-open SYN table; fragmented and decoy-covered probes use it too,
/// with their own confidence and reason for an accepted probe.
pub open spec fn syn_verdict(r: Response) -> Verdict {
    match r {
        Response::Accepted => (PortState::Open, 980, "syn-ack-received"@),
        Response::Reset => (PortState::Closed, 950, "rst"@),
        Response::Unreachable => (PortState::Filtered, 850, "icmp-unreach"@),
        Response::Silent => (PortState::Filtered, 800, "no-response"@),
        Response::Datagram => unexpected_verdict(),
        _ => transport_verdict(r),
    }
}

/// The state, confidence and reason each table gives each response.
pub open spec fn verdict(t: Table, r: Response) -> Verdict {
    match t {
        Table::Connect => match r {
            Response::Accepted => (PortState::Open, 1000, "syn-ack"@),
            Response::Reset => (PortState::Closed, 1000, "rst"@),
            Response::Unreachable => (PortState::Filtered, 800, "host-unreach"@),
            Response::Silent => (PortState::Filtered, 800, "timeout"@),
            Response::Datagram => unexpected_verdict(),
            _ => transport_verdict(r),
        },
        Table::Syn => syn_verdict(r),
        Table::Fragment => if r == Response::Accepted {
            (PortState::Open, 920, "fragment-response"@)
        } else {
            syn_verdict(r)
        },
        Table::Decoy => if r == Response::Accepted {
            (PortState::Open, 930, "decoy-masked-response"@)
        } else {
            syn_verdict(r)
        },
        Table::NoAck => match r {
            Response::Silent => (PortState::OpenFiltered, 850, "no-response"@),
            Response::Reset => (PortState::Closed, 900, "rst"@),
            Response::Unreachable => (PortState::Filtered, 850, "icmp-unreach"@),
            Response::Accepted | Response::Datagram => unexpected_verdict(),
            _ => transport_verdict(r),
        },
        Table::Ack => match r {
            Response::Reset => (PortState::Unfiltered, 900, "rst"@),
            Response::Silent => (PortState::Filtered, 850, "no-response"@),
            Response::Unreachable => (PortState::Filtered, 850, "icmp-unreach"@),
            Response::Accepted | Response::Datagram => unexpected_verdict(),
            _ => transport_verdict(r),
        },
        Table::Udp => match r {
            Response::Datagram => (PortState::Open, 900, "udp-response"@),
            Response::Unreachable => (PortState::Filtered, 700, "port-unreach"@),
            Response::Silent => (PortState::OpenFiltered, 600, "no-response"@),
            Response::Accepted | Response::Reset => unexpected_verdict(),
            _ => transport_verdict(r),
        },
    }
}

/// The service commonly found on a well-known port.
pub open spec fn service_of(port: u16) -> Option<Seq<char>> {
    if port == 21 { Some("ftp"@) }
    else if port == 22 { Some("ssh"@) }
    else if port == 23 { Some("telnet"@) }
    else if port == 25 { Some("smtp"@) }
    else if port == 53 { Some("dns"@) }
    else if port == 80 { Some("http"@) }
    else if port == 110 { Some("pop3"@) }
    else if port == 143 { Some("imap"@) }
    else if port == 443 { Some("https"@) }
    else if port == 993 { Some("imaps"@) }
    else if port == 995 { Some("pop3s"@) }
    else if port == 1433 { Some("mssql"@) }
    else if port == 3306 { Some("mysql"@) }
    else if port == 3389 { Some("ms-wbt-server"@) }
    else if port == 5432 { Some("postgresql"@) }
    else if port == 6379 { Some("redis"@) }
    else if port == 27017 { Some("mongodb"@) }
    else { None }
}

/// The view of an optional string.
pub open spec fn opt_view(s: Option<String>) -> Option<Seq<char>> {
    match s {
        Some(x) => Some(x@),
        None => None,
    }
}

/// The service name of a well-known port, or `None`.
pub fn detect_service(port: u16) -> (r: Option<String>)
    ensures
        opt_view(r) == service_of(port),
{
    let name: &str = if port == 21 { "ftp" }
    else if port == 22 { "ssh" }
    else if port == 23 { "telnet" }
    else if port == 25 { "smtp" }
    else if port == 53 { "dns" }
    else if port == 80 { "http" }
    else if port == 110 { "pop3" }
    else if port == 143 { "imap" }
    else if port == 443 { "https" }
    else if port == 993 { "imaps" }
    else if port == 995 { "pop3s" }
    else if port == 1433 { "mssql" }
    else if port == 3306 { "mysql" }
    else if port == 3389 { "ms-wbt-server" }
    else if port == 5432 { "postgresql" }
    else if port == 6379 { "redis" }
    else if port == 27017 { "mongodb" }
    else { return None; };
    Some(String::from_str(name))
}

fn transport_verdict_of(r: Response) -> (v: (PortState, u16, &'static str))
    ensures
        (v.0, v.1, v.2@) == transport_verdict(r),
{
    match r {
        Response::BindFailed => (PortState::Filtered, 300, "socket-bind-failed"),
        Response::SendFailed => (PortState::Filtered, 500, "send-failed"),
        _ => (PortState::Filtered, 700, "recv-error"),
    }
}

fn syn_verdict_of(r: Response) -> (v: (PortState, u16, &'static str))
    ensures
        (v.0, v.1, v.2@) == syn_verdict(r),
{
    match r {
        Response::Accepted => (PortState::Open, 980, "syn-ack-received"),
        Response::Reset => (PortState::Closed, 950, "rst"),
        Response::Unreachable => (PortState::Filtered, 850, "icmp-unreach"),
        Response::Silent => (PortState::Filtered, 800, "no-response"),
        Response::Datagram => (PortState::Filtered, 500, "unexpected-reply"),
        _ => transport_verdict_of(r),
    }
}

/// The state, confidence and reason code of a response under a table.
pub fn verdict_of(t: Table, r: Response) -> (v: (PortState, u16, &'static str))
    ensures
        (v.0, v.1, v.2@) == verdict(t, r),
        v.1 <= 1000,
{
    match t {
        Table::Connect => match r {
            Response::Accepted => (PortState::Open, 1000, "syn-ack"),
            Response::Reset => (PortState::Closed, 1000, "rst"),
            Response::Unreachable => (PortState::Filtered, 800, "host-unreach"),
            Response::Silent => (PortState::Filtered, 800, "timeout"),
            Response::Datagram => (PortState::Filtered, 500, "unexpected-reply"),
            _ => transport_verdict_of(r),
        },
        Table::Syn => syn_verdict_of(r),
        Table::Fragment => if r == Response::Accepted {
            (PortState::Open, 920, "fragment-response")
        } else {
            syn_verdict_of(r)
        },
        Table::Decoy => if r == Response::Accepted {
            (PortState::Open, 930, "decoy-masked-response")
        } else {
            syn_verdict_of(r)
        },
        Table::NoAck => match r {
            Response::Silent => (PortState::OpenFiltered, 850, "no-response"),
            Response::Reset => (PortState::Closed, 900, "rst"),
            Response::Unreachable => (PortState::Filtered, 850, "icmp-unreach"),
            Response::Accepted | Response::Datagram => (PortState::Filtered, 500, "unexpected-reply"),
            _ => transport_verdict_of(r),
        },
        Table::Ack => match r {
            Response::Reset => (PortState::Unfiltered, 900, "rst"),
            Response::Silent => (PortState::Filtered, 850, "no-response"),
            Response::Unreachable => (PortState::Filtered, 850, "icmp-unreach"),
            Response::Accepted | Response::Datagram => (PortState::Filtered, 500, "unexpected-reply"),
            _ => transport_verdict_of(r),
        },
        Table::Udp => match r {
            Response::Datagram => (PortState::Open, 900, "udp-response"),
            Response::Unreachable => (PortState::Filtered, 700, "port-unreach"),
            Response::Silent => (PortState::OpenFiltered, 600, "no-response"),
            Response::Accepted | Response::Reset => (PortState::Filtered, 500, "unexpected-reply"),
            _ => transport_verdict_of(r),
        },
    }
}

/// The round-trip evidence a table records: measured time for handshake,
/// SYN and UDP probes (the full timeout when nothing came back), none for
/// the others.
pub open spec fn timing_evidence(t: Table, r: Response, timing: Timing, elapsed_us: u64) -> Option<u64> {
    match t {
        Table::Connect | Table::Syn | Table::Udp => if r == Response::Silent {
            Some((timeout_ms(timing) * 1000) as u64)
        } else {
            Some(elapsed_us)
        },
        _ => None,
    }
}

/// What an outcome built from a table holds.
pub open spec fn classified(
    res: PortResult,
    t: Table,
    port: u16,
    r: Response,
    timing: Timing,
    elapsed_us: u64,
) -> bool {
    &&& res.port == port
    &&& res.protocol@ == (if t == Table::Udp { "udp"@ } else { "tcp"@ })
    &&& (res.state, res.confidence, res.reason@) == verdict(t, r)
    &&& opt_view(res.service) == (if res.state == PortState::Open { service_of(port) } else { None })
    &&& res.version is None
    &&& res.ttl is None
    &&& res.response_time == timing_evidence(t, r, timing, elapsed_us)
    &&& res.packet_analysis is None
    &&& res.wf()
}

/// Classifies one response under a table into an outcome.
pub fn classify(t: Table, port: u16, r: Response, timing: Timing, elapsed_us: u64) -> (res: PortResult)
    ensures
        classified(res, t, port, r, timing, elapsed_us),
{
    let v = verdict_of(t, r);
    let service = if v.0 == PortState::Open { detect_service(port) } else { None };
    let response_time = match t {
        Table::Connect | Table::Syn | Table::Udp => if r == Response::Silent {
            Some(get_timing_timeout(&timing) * 1000)
        } else {
            Some(elapsed_us)
        },
        _ => None,
    };
    let protocol = if t == Table::Udp { String::from_str("udp") } else { String::from_str("tcp") };
    PortResult {
        port,
        protocol,
        state: v.0,
        service,
        version: None,
        confidence: v.1,
        reason: String::from_str(v.2),
        ttl: None,
        response_time,
        packet_analysis: None,
    }
}

/// Full-handshake probe: accepted is open, reset is closed, unreachable or
/// silent is filtered.
pub fn tcp_connect_scan(port: u16, response: Response, timing: Timing, elapsed_us: u64) -> (res: PortResult)
    ensures
        classified(res, Table::Connect, port, response, timing, elapsed_us),
{
    classify(Table::Connect, port, response, timing, elapsed_us)
}

/// Classifies the reply to a half-open SYN probe.
pub fn attempt_syn_scan(port: u16, response: Response, timing: Timing, elapsed_us: u64) -> (res: PortResult)
    ensures
        classified(res, Table::Syn, port, response, timing, elapsed_us),
{
    classify(Table::Syn, port, response, timing, elapsed_us)
}

/// Half-open SYN probe. `raw` is the reply, or `None` where raw packets
/// could not be sent; then there is no outcome and the probe falls back to
/// a full handshake (`tcp_connect_scan`).
pub fn syn_scan(port: u16, raw: Option<Response>, timing: Timing, elapsed_us: u64) -> (res: Option<PortResult>)
    ensures
        res is Some <==> raw is Some,
        raw is Some ==> classified(res->0, Table::Syn, port, raw->0, timing, elapsed_us),
{
    match raw {
        Some(r) => Some(attempt_syn_scan(port, r, timing, elapsed_us)),
        None => None,
    }
}

/// FIN probe: silence is open|filtered, a reset is closed.
pub fn fin_scan(port: u16, response: Response) -> (res: PortResult)
    ensures
        classified(res, Table::NoAck, port, response, Timing::Normal, 0),
{
    classify(Table::NoAck, port, response, Timing::Normal, 0)
}

/// NULL probe (no flags): classified as a FIN probe.
pub fn null_scan(port: u16, response: Response) -> (res: PortResult)
    ensures
        classified(res, Table::NoAck, port, response, Timing::Normal, 0),
{
    classify(Table::NoAck, port, response, Timing::Normal, 0)
}

/// Xmas probe (FIN, PSH and URG): classified as a FIN probe.
pub fn xmas_scan(port: u16, response: Response) -> (res: PortResult)
    ensures
        classified(res, Table::NoAck, port, response, Timing::Normal, 0),
{
    classify(Table::NoAck, port, response, Timing::Normal, 0)
}

/// ACK probe: a reset is unfiltered, silence is filtered.
pub fn ack_scan(port: u16, response: Response) -> (res: PortResult)
    ensures
        classified(res, Table::Ack, port, response, Timing::Normal, 0),
{
    classify(Table::Ack, port, response, Timing::Normal, 0)
}

/// UDP probe: a reply is open, an ICMP unreachable or receive error is
/// filtered, silence is open|filtered.
pub fn udp_scan(port: u16, response: Response, timing: Timing, elapsed_us: u64) -> (res: PortResult)
    ensures
        classified(res, Table::Udp, port, response, timing, elapsed_us),
{
    classify(Table::Udp, port, response, timing, elapsed_us)
}

/// Fragmented SYN probe: the SYN table; fragmentation changes delivery only.
/// `None` where raw packets could not be sent.
pub fn fragment_scan(port: u16, raw: Option<Response>) -> (res: Option<PortResult>)
    ensures
        res is Some <==> raw is Some,
        raw is Some ==> classified(res->0, Table::Fragment, port, raw->0, Timing::Normal, 0),
{
    match raw {
        Some(r) => Some(classify(Table::Fragment, port, r, Timing::Normal, 0)),
        None => None,
    }
}

/// SYN probe covered by decoys: only the real probe's reply is classified.
/// `None` where raw packets could not be sent.
pub fn decoy_scan(port: u16, raw: Option<Response>) -> (res: Option<PortResult>)
    ensures
        res is Some <==> raw is Some,
        raw is Some ==> classified(res->0, Table::Decoy, port, raw->0, Timing::Normal, 0),
{
    match raw {
        Some(r) => Some(classify(Table::Decoy, port, r, Timing::Normal, 0)),
        None => None,
    }
}

/// The state an idle probe reads from the zombie's IP-identifier counter:
/// a rise of 2 means the target answered the spoofed probe (open), a rise of
/// 1 means it did not (closed or filtered); any other change means the
/// zombie was not idle.
pub open spec fn idle_verdict(baseline: u16, after: u16) -> Verdict {
    let rise = (after as int - baseline as int) % 65536;
    if rise == 2 {
        (PortState::Open, 950, "idle-increment-detected"@)
    } else if rise == 1 {
        (PortState::ClosedFiltered, 900, "idle-no-increment"@)
    } else {
        (PortState::Filtered, 400, "idle-zombie-busy"@)
    }
}

/// Idle (zombie) probe, from the zombie's identifier before and after the
/// spoofed probe; the counter wraps at 65536.
pub fn idle_scan(port: u16, baseline: u16, after: u16) -> (res: PortResult)
    ensures
        res.port == port,
        res.protocol@ == "tcp"@,
        (res.state, res.confidence, res.reason@) == idle_verdict(baseline, after),
        opt_view(res.service) == (if res.state == PortState::Open { service_of(port) } else { None }),
        res.response_time is None,
        res.wf(),
{
    let rise: u16 = after.wrapping_sub(baseline);
    proof {
        assert(rise as int == (after as int - baseline as int) % 65536);
    }
    let v: (PortState, u16, &'static str) = if rise == 2 {
        (PortState::Open, 950, "idle-increment-detected")
    } else if rise == 1 {
        (PortState::ClosedFiltered, 900, "idle-no-increment")
    } else {
        (PortState::Filtered, 400, "idle-zombie-busy")
    };
    let service = if v.0 == PortState::Open { detect_service(port) } else { None };
    PortResult {
        port,
        protocol: String::from_str("tcp"),
        state: v.0,
        service,
        version: None,
        confidence: v.1,
        reason: String::from_str(v.2),
        ttl: None,
        response_time: None,
        packet_analysis: None,
    }
}

/// Repeated full-handshake probes of a port that keeps accepting agree:
/// each is classified open with full confidence and the same reason,
/// whatever the port, template and measured times.
pub proof fn lemma_connect_open_stable(
    first: PortResult,
    second: PortResult,
    port: u16,
    timing: Timing,
    elapsed_first: u64,
    elapsed_second: u64,
)
    requires
        classified(first, Table::Connect, port, Response::Accepted, timing, elapsed_first),
        classified(second, Table::Connect, port, Response::Accepted, timing, elapsed_second),
    ensures
        first.state == PortState::Open,
        second.state == PortState::Open,
        first.confidence == 1000,
        second.confidence == 1000,
        first.reason@ == second.reason@,
        opt_view(first.service) == opt_view(second.service),
{
}

/// The zombie's identifier decides an idle probe: a rise of exactly 2 from
/// any baseline (wrapping at 65536) is open, a rise of exactly 1 is
/// closed-or-filtered.
pub proof fn lemma_idle_increment(baseline: u16)
    ensures
        idle_verdict(baseline, ((baseline + 2) % 65536) as u16).0 == PortState::Open,
        idle_verdict(baseline, ((baseline + 1) % 65536) as u16).0 == PortState::ClosedFiltered,
{
}

} // verus!
