use traceprobe::checksum::compute_ipv4_checksum;
use traceprobe::checksum::verify_ipv4_checksum;
use traceprobe::headers::decode_ipv4;
use traceprobe::headers::encode_ipv4;
use traceprobe::headers::encode_udp;
use traceprobe::headers::EncodingError;
use traceprobe::headers::IPv4Header;
use traceprobe::headers::UdpHeader;

fn sample_header() -> IPv4Header {
    IPv4Header {
        version_ihl: 0x45,
        dscp_ecn: 0,
        total_len: 28,
        id: 0,
        flags_fragment_offset: 0,
        ttl: 64,
        protocol: 17,
        header_checksum: 0,
        src_addr: 0x01020304,
        dest_addr: 0x05060708,
    }
}

#[test]
fn roundtrip_recovers_all_fields() {
    let h = IPv4Header {
        version_ihl: 0x45,
        dscp_ecn: 0x2e,
        total_len: 1499,
        id: 0xbeef,
        flags_fragment_offset: 0x4123,
        ttl: 17,
        protocol: 17,
        header_checksum: 0xa5a5,
        src_addr: 0xc0a80001,
        dest_addr: 0x08080808,
    };
    let bytes = encode_ipv4(&h).unwrap();
    assert_eq!(bytes.len(), 20);
    let back = decode_ipv4(&bytes);
    assert_eq!(back, h);
}

#[test]
fn encode_rejects_inconsistent_header_length() {
    let mut h = sample_header();
    h.version_ihl = 0x44;
    assert_eq!(encode_ipv4(&h), Err(EncodingError::HeaderLengthMismatch));
    h.version_ihl = 0x46;
    assert_eq!(encode_ipv4(&h), Err(EncodingError::HeaderLengthMismatch));
}

#[test]
fn known_header_has_known_encoding_and_checksum() {
    let h = sample_header();
    let bytes = encode_ipv4(&h).unwrap();
    let expected: Vec<u8> = vec![
        0x45, 0x00, 0x00, 0x1c, 0x00, 0x00, 0x00, 0x00, 0x40, 0x11, 0x00, 0x00, 0x01, 0x02, 0x03,
        0x04, 0x05, 0x06, 0x07, 0x08,
    ];
    assert_eq!(bytes, expected);
    // Hand-checked: the ten big-endian words with the checksum field zeroed
    // sum to 0x9541 with no carry, and !0x9541 == 0x6abe.
    assert_eq!(compute_ipv4_checksum(&bytes), 0x6abe);
}

#[test]
fn checksum_is_deterministic() {
    let bytes = encode_ipv4(&sample_header()).unwrap();
    assert_eq!(compute_ipv4_checksum(&bytes), compute_ipv4_checksum(&bytes));
}

#[test]
fn checksum_validates_after_patching() {
    let mut bytes = encode_ipv4(&sample_header()).unwrap();
    let c = compute_ipv4_checksum(&bytes);
    bytes[10] = (c >> 8) as u8;
    bytes[11] = (c & 0xff) as u8;
    assert!(verify_ipv4_checksum(&bytes));
    // Corrupting any byte breaks validation for this header.
    bytes[8] = bytes[8].wrapping_add(1);
    assert!(!verify_ipv4_checksum(&bytes));
}

#[test]
fn checksum_field_is_ignored_by_computation() {
    let mut with_zero = encode_ipv4(&sample_header()).unwrap();
    let c = compute_ipv4_checksum(&with_zero);
    with_zero[10] = 0x12;
    with_zero[11] = 0x34;
    assert_eq!(compute_ipv4_checksum(&with_zero), c);
}

#[test]
fn all_zero_header_checksum() {
    let bytes: Vec<u8> = vec![0; 20];
    assert_eq!(compute_ipv4_checksum(&bytes), 0xffff);
}

#[test]
fn udp_header_encodes_in_network_order() {
    let u = UdpHeader { src_port: 4243, dest_port: 33434, length: 8, checksum: 0 };
    let bytes = encode_udp(&u);
    let expected: Vec<u8> = vec![0x10, 0x93, 0x82, 0x9a, 0x00, 0x08, 0x00, 0x00];
    assert_eq!(bytes, expected);
}
