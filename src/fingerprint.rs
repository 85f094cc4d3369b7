//! Host fingerprint data and randomized identities: a link-layer address,
//! a spoofed source address, and a custom packet signature.
use crate::text::{chars_of, decimal_of, push_decimal, string_from_chars};
use crate::types::{HostFingerprint, IpAddress, ServiceProbe};
use std::collections::HashMap;
use vstd::prelude::*;
use vstd::string::*;

verus! {

/// What the standard padded base64 alphabet encoding gives for some bytes.
pub uninterp spec fn base64_of(b: Seq<u8>) -> Seq<char>;

/// Relies on `base64::engine::general_purpose::STANDARD.encode`: the
/// encoding depends on the bytes alone.
#[verifier::external_body]
fn encode_base64(data: &[u8]) -> (r: String)
    ensures
        r@ == base64_of(data@),
{
    base64::Engine::encode(&base64::engine::general_purpose::STANDARD, data)
}

/// Relies on `rand::Rng::gen_range` over `rand::thread_rng()`: a value in
/// `lo..hi` (it panics on an empty range, which `requires` excludes).
#[verifier::external_body]
fn random_in(lo: u32, hi: u32) -> (r: u32)
    requires
        lo < hi,
    ensures
        lo <= r < hi,
{
    rand::Rng::gen_range(&mut rand::thread_rng(), lo..hi)
}

/// The text whose bytes make up the sample fingerprint data.
pub const FINGERPRINT_SAMPLE: &'static str = "TCP/IP fingerprint data for OS detection";

/// The sample fingerprint data, base64-encoded.
pub fn generate_fingerprint_data() -> (r: String)
    ensures
        r@ == base64_of(FINGERPRINT_SAMPLE.spec_bytes()),
{
    encode_base64(FINGERPRINT_SAMPLE.as_bytes())
}

/// A fingerprint of a host with an incremental IP-identifier sequence,
/// carrying `raw` as its packet data.
pub fn fingerprint_from_data(raw: String) -> (r: HostFingerprint)
    ensures
        r.tcp_sequence@ == "64K (65536)"@,
        r.ip_id_sequence@ == "Incremental"@,
        r.tcp_ts_sequence matches Some(ts) && ts@ == "10HZ"@,
        r.service_scan_results@ == Map::<u16, ServiceProbe>::empty(),
        r.raw_packet_data matches Some(d) && d@ == raw@,
{
    HostFingerprint {
        tcp_sequence: String::from_str("64K (65536)"),
        ip_id_sequence: String::from_str("Incremental"),
        tcp_ts_sequence: Some(String::from_str("10HZ")),
        service_scan_results: HashMap::new(),
        raw_packet_data: Some(raw),
    }
}

/// The fingerprint of a host, carrying the encoded sample data.
pub fn fingerprint_host(ip: IpAddress) -> (r: Option<HostFingerprint>)
    ensures
        r matches Some(f) && f.raw_packet_data matches Some(d) && d@ == base64_of(
            FINGERPRINT_SAMPLE.spec_bytes(),
        ) && f.ip_id_sequence@ == "Incremental"@,
{
    Some(fingerprint_from_data(generate_fingerprint_data()))
}

/// A six-byte link-layer (MAC) address.
#[derive(Debug, Clone, Copy, PartialEq, Eq)]
pub struct MacAddress {
    pub octets: [u8; 6],
}

fn random_byte() -> (r: u8) {
    random_in(0, 256) as u8
}

/// A randomly chosen link-layer address; nothing is promised of its bytes.
pub fn randomize_mac_address() -> (r: MacAddress) {
    let a = random_byte();
    let b = random_byte();
    let c = random_byte();
    let d = random_byte();
    let e = random_byte();
    let f = random_byte();
    MacAddress { octets: [a, b, c, d, e, f] }
}

/// The 32-bit value of the IPv4 address `a.b.c.d`.
pub open spec fn ipv4_value(a: nat, b: nat, c: nat, d: nat) -> nat {
    a * 16777216 + b * 65536 + c * 256 + d
}

/// Whether `x` is an address `a.b.c.d` with `a` and `d` in 1..255 and `b`
/// and `c` in 0..255: never a network, broadcast or zero address.
pub open spec fn spoofable(x: u32) -> bool {
    exists|a: nat, b: nat, c: nat, d: nat|
        1 <= a < 255 && b < 255 && c < 255 && 1 <= d < 255 && x == #[trigger] ipv4_value(a, b, c, d)
}

/// A random IPv4 source address to present instead of the real one.
pub fn spoof_source_ip() -> (r: IpAddress)
    ensures
        r matches IpAddress::V4(x) && spoofable(x),
{
    let a = random_in(1, 255);
    let b = random_in(0, 255);
    let c = random_in(0, 255);
    let d = random_in(1, 255);
    let x: u32 = a * 16777216 + b * 65536 + c * 256 + d;
    proof {
        assert(x == ipv4_value(a as nat, b as nat, c as nat, d as nat));
    }
    IpAddress::V4(x)
}

/// The signature `base` followed by `-` and the decimal `suffix`.
pub fn signature_with_suffix(base: &str, suffix: u32) -> (r: String)
    ensures
        r@ == base@ + seq!['-'] + decimal_of(suffix as nat),
{
    let mut v = chars_of(base);
    v.push('-');
    push_decimal(suffix, &mut v);
    string_from_chars(&v)
}

/// A custom packet signature: `base`, a dash, and a random four-digit
/// number from 1000 to 9998.
pub fn generate_custom_signature(base: &str) -> (r: String)
    ensures
        exists|n: u32| 1000 <= n < 9999 && r@ == base@ + seq!['-'] + decimal_of(n as nat),
{
    let suffix = random_in(1000, 9999);
    signature_with_suffix(base, suffix)
}

} // verus!
