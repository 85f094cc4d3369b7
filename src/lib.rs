//! A port-probing engine: target resolution, timing templates, per-technique
//! probe classification, retry and scheduling decisions, and report
//! aggregation, each with a contract proved by Verus.
//!
//! Network I/O, the async runtime and report serialisation live outside this
//! library; they hand it plain observations and take plain decisions back.

pub mod config;
pub mod evasion;
pub mod fingerprint;
pub mod indicator;
pub mod probe;
pub mod report;
pub mod scan;
pub mod scripts;
pub mod text;
pub mod timing;
pub mod types;

pub use config::{parse_ports, parse_timing, split_list, Args, ConfigurationError, ScanConfig};
pub use evasion::{apply_stealth_modifications, plan_evasion, EvasionTechnique};
pub use fingerprint::{
    fingerprint_host, generate_custom_signature, generate_fingerprint_data, randomize_mac_address,
    signature_with_suffix, spoof_source_ip, MacAddress,
};
pub use indicator::LoadingIndicator;
pub use probe::{
    ack_scan, attempt_syn_scan, decoy_scan, detect_service, fin_scan, fragment_scan, idle_scan, xmas_scan,
    null_scan, syn_scan, tcp_connect_scan, udp_scan, ProbeAction, Response, Table, TcpFlags,
};
pub use report::{perform_scan, scan_jobs, ProbeRecord};
pub use scan::{
    accept_lookup, admission_delay, apollo_scan, build_jobs, fallback_action, perform_port_scan,
    plan_probe, resolve_targets, settle_attempts, should_retry, CompositeState, Observation,
    ProbeJob, Resolution, ResolutionError,
};
pub use scripts::{run_custom_scripts, ScriptError};
pub use timing::{get_timing_delay, get_timing_timeout, Timing};
pub use types::{
    EvasionReport, HostFingerprint, IpAddress, OSDetection, PacketAnalysis, PortResult, PortState,
    ScanResults, ScanStats, ScanSummary, ScanType, ScriptResult, ServiceProbe, TargetResult,
};
