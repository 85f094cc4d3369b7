//! The data model: probing techniques, port states, per-probe outcomes and
//! the aggregate report.
//!
//! Confidences are stored in thousandths (0 to 1000 stands for 0.0 to 1.0),
//! durations as whole micro- or milliseconds, and instants as milliseconds
//! since the Unix epoch.
pub use crate::timing::Timing;
use std::collections::HashMap;
use vstd::prelude::*;

verus! {

/// The largest confidence, standing for 1.0.
pub const FULL_CONFIDENCE: u16 = 1000;

/// A network address: IPv4 as its 32-bit value, IPv6 as its 128-bit value.
#[derive(Debug, Clone, Copy, PartialEq, Eq, Structural)]
pub enum IpAddress {
    V4(u32),
    V6(u128),
}

/// The probing technique selected for a run.
#[derive(Debug, Clone)]
pub enum ScanType {
    /// Adaptive: picks a sub-technique per probe from what was observed so far.
    Apollo,
    Syn,
    Fin,
    Null,
    Xmas,
    Ack,
    Udp,
    Idle,
    Fragment,
    Decoy,
    Connect,
    Custom(String),
}

/// The classification of one (address, port, protocol) tuple.
#[derive(Debug, Clone, Copy, PartialEq, Eq, Structural)]
pub enum PortState {
    Open,
    Closed,
    Filtered,
    Unfiltered,
    OpenFiltered,
    ClosedFiltered,
}

/// Evidence read from the packets of a raw probe.
#[derive(Debug, Clone)]
pub struct PacketAnalysis {
    pub ip_id: Option<u16>,
    pub tcp_sequence: Option<u32>,
    pub tcp_ack: Option<u32>,
    pub window_size: Option<u16>,
    pub tcp_options: Option<Vec<String>>,
}

/// The outcome of one probe.
#[derive(Debug, Clone)]
pub struct PortResult {
    pub port: u16,
    pub protocol: String,
    pub state: PortState,
    pub service: Option<String>,
    pub version: Option<String>,
    /// In thousandths: 1000 is full confidence.
    pub confidence: u16,
    /// A short machine-readable reason code.
    pub reason: String,
    pub ttl: Option<u8>,
    /// Round-trip time in microseconds.
    pub response_time: Option<u64>,
    pub packet_analysis: Option<PacketAnalysis>,
}

impl PortResult {
    /// A well-formed outcome has a confidence of at most 1000 thousandths.
    pub open spec fn wf(&self) -> bool {
        self.confidence <= FULL_CONFIDENCE
    }
}

/// Counts over the outcomes aggregated so far.
#[derive(Debug, Clone, Copy, PartialEq, Eq, Structural)]
pub struct ScanSummary {
    pub total_hosts: u32,
    pub total_ports: u32,
    pub open_ports: u32,
}

/// Run timing and best-effort packet statistics.
#[derive(Debug, Clone)]
pub struct ScanStats {
    /// Milliseconds since the Unix epoch.
    pub start_time: i64,
    /// Milliseconds since the Unix epoch, once the run is finalized.
    pub end_time: Option<i64>,
    /// Milliseconds between start and end, once the run is finalized.
    pub duration: Option<u64>,
    pub packets_sent: u64,
    pub packets_received: u64,
    pub packets_dropped: u64,
    pub evasion_techniques_used: Vec<String>,
}

/// The evasion techniques a run attempted (declared, not measured).
#[derive(Debug, Clone)]
pub struct EvasionReport {
    pub techniques_successful: Vec<String>,
    pub ids_avoided: Vec<String>,
    pub firewall_bypassed: Option<bool>,
    pub packet_modifications: Vec<String>,
}

/// Operating-system detection supplied by a fingerprinting collaborator.
#[derive(Debug, Clone)]
pub struct OSDetection {
    pub name: String,
    /// In thousandths.
    pub confidence: u16,
    pub fingerprints: Vec<String>,
    pub icmp_response: Option<String>,
    pub tcp_isn_analysis: Option<String>,
}

/// The result of one post-scan script.
#[derive(Debug, Clone)]
pub struct ScriptResult {
    pub name: String,
    pub output: String,
    pub risk_level: String,
    /// In thousandths.
    pub stealth_score: u16,
}

/// A service identified by a probe.
#[derive(Debug, Clone)]
pub struct ServiceProbe {
    pub probe_name: String,
    pub response: String,
    pub service: String,
    pub version: Option<String>,
    pub encrypted: bool,
}

/// Host fingerprint data.
#[derive(Debug, Clone)]
pub struct HostFingerprint {
    pub tcp_sequence: String,
    pub ip_id_sequence: String,
    pub tcp_ts_sequence: Option<String>,
    pub service_scan_results: HashMap<u16, ServiceProbe>,
    pub raw_packet_data: Option<String>,
}

/// The outcomes of one target address.
#[derive(Debug, Clone)]
pub struct TargetResult {
    pub ip: IpAddress,
    pub hostname: Option<String>,
    pub ports: Vec<PortResult>,
    pub os_detection: Option<OSDetection>,
    pub scripts: Vec<ScriptResult>,
    pub fingerprint: Option<HostFingerprint>,
    pub evasion_success: Option<bool>,
}

/// The aggregate report of a run.
#[derive(Debug, Clone)]
pub struct ScanResults {
    /// Milliseconds since the Unix epoch.
    pub timestamp: i64,
    pub targets: Vec<TargetResult>,
    pub summary: ScanSummary,
    pub scan_stats: ScanStats,
    pub evasion_report: Option<EvasionReport>,
}

} // verus!
