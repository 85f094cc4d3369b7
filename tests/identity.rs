use apollo_scan::{
    fingerprint_host, generate_custom_signature, generate_fingerprint_data, randomize_mac_address,
    signature_with_suffix, spoof_source_ip, IpAddress, LoadingIndicator,
};

#[test]
fn fingerprint_data_is_base64() {
    assert_eq!(generate_fingerprint_data(), "VENQL0lQIGZpbmdlcnByaW50IGRhdGEgZm9yIE9TIGRldGVjdGlvbg==");
    let f = fingerprint_host(IpAddress::V4(1)).unwrap();
    assert_eq!(f.raw_packet_data.as_deref(), Some("VENQL0lQIGZpbmdlcnByaW50IGRhdGEgZm9yIE9TIGRldGVjdGlvbg=="));
    assert_eq!(f.tcp_ts_sequence.as_deref(), Some("10HZ"));
    assert!(f.service_scan_results.is_empty());
}

#[test]
fn signature_suffix_format() {
    assert_eq!(signature_with_suffix("apollo", 1234), "apollo-1234");
    assert_eq!(signature_with_suffix("", 7), "-7");
    let s = generate_custom_signature("sig");
    assert!(s.starts_with("sig-"));
    let n: u32 = s[4..].parse().unwrap();
    assert!((1000..9999).contains(&n));
}

#[test]
fn spoofed_address_in_range() {
    for _ in 0..50 {
        match spoof_source_ip() {
            IpAddress::V4(x) => {
                let o = x.to_be_bytes();
                assert!(o[0] >= 1 && o[0] < 255);
                assert!(o[1] < 255 && o[2] < 255);
                assert!(o[3] >= 1 && o[3] < 255);
            }
            IpAddress::V6(_) => panic!("spoofed address is not IPv4"),
        }
    }
}

#[test]
fn random_mac_has_six_bytes() {
    let m = randomize_mac_address();
    assert_eq!(m.octets.len(), 6);
}

#[test]
fn spinner_lines() {
    let mut s = LoadingIndicator::new("Scanning");
    assert_eq!(s.update(), "\r| Scanning ");
    assert_eq!(s.update(), "\r/ Scanning ");
    assert_eq!(s.update(), "\r- Scanning ");
    assert_eq!(s.update(), "\r\\ Scanning ");
    assert_eq!(s.update(), "\r| Scanning ");
    assert_eq!(s.finish(), "\r[+] Scanning completed\n");
}
