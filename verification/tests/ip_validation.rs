//! IP literal validation against the platform parser.

use emlrustlib::ip::is_valid_ip;

#[test]
fn accepts_ipv4_literals() {
    assert!(is_valid_ip("8.8.8.8"));
    assert!(is_valid_ip("0.0.0.0"));
    assert!(is_valid_ip("255.255.255.255"));
    assert!(is_valid_ip("192.168.0.1"));
}

#[test]
fn accepts_ipv6_literals() {
    assert!(is_valid_ip("::1"));
    assert!(is_valid_ip("2001:db8::ff00:42:8329"));
    assert!(is_valid_ip("::ffff:192.0.2.1"));
    assert!(is_valid_ip("fe80::1"));
}

#[test]
fn rejects_malformed_dotted_quads() {
    assert!(!is_valid_ip(".1.2.3"));
    assert!(!is_valid_ip("1.2.3."));
    assert!(!is_valid_ip("1..2.3"));
    assert!(!is_valid_ip("00.1.2.3"));
    assert!(!is_valid_ip("1234.1.1.1"));
    assert!(!is_valid_ip("1.2.3.4x"));
    assert!(is_valid_ip("10.200.30.249"));
}

#[test]
fn rejects_invalid_literals() {
    assert!(!is_valid_ip(""));
    assert!(!is_valid_ip("not-an-ip"));
    assert!(!is_valid_ip("256.1.1.1"));
    assert!(!is_valid_ip("1.2.3"));
    assert!(!is_valid_ip("1.2.3.4.5"));
    assert!(!is_valid_ip("01.2.3.4"));
    assert!(!is_valid_ip("8.8.8.8 "));
    assert!(!is_valid_ip("1:2:3:4:5:6:7:8:9"));
}
