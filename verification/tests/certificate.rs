use rustls_pki_types::CertificateDer;
use upki_openssl::certificate::{describe_cert, describe_fields};

/// A certificate for `leaf`, issued by `Test CA`, with serial number 0x1a2b.
const LEAF: &[u8] = &[
    0x30, 0x81, 0x8a, 0x30, 0x74, 0x02, 0x02, 0x1a, 0x2b, 0x30, 0x0d, 0x06,
    0x09, 0x2a, 0x86, 0x48, 0x86, 0xf7, 0x0d, 0x01, 0x01, 0x0b, 0x05, 0x00,
    0x30, 0x12, 0x31, 0x10, 0x30, 0x0e, 0x06, 0x03, 0x55, 0x04, 0x03, 0x0c,
    0x07, 0x54, 0x65, 0x73, 0x74, 0x20, 0x43, 0x41, 0x30, 0x1e, 0x17, 0x0d,
    0x32, 0x35, 0x30, 0x31, 0x30, 0x31, 0x30, 0x30, 0x30, 0x30, 0x30, 0x30,
    0x5a, 0x17, 0x0d, 0x33, 0x35, 0x30, 0x31, 0x30, 0x31, 0x30, 0x30, 0x30,
    0x30, 0x30, 0x30, 0x5a, 0x30, 0x0f, 0x31, 0x0d, 0x30, 0x0b, 0x06, 0x03,
    0x55, 0x04, 0x03, 0x0c, 0x04, 0x6c, 0x65, 0x61, 0x66, 0x30, 0x1a, 0x30,
    0x0d, 0x06, 0x09, 0x2a, 0x86, 0x48, 0x86, 0xf7, 0x0d, 0x01, 0x01, 0x01,
    0x05, 0x00, 0x03, 0x09, 0x00, 0x30, 0x06, 0x02, 0x01, 0x05, 0x02, 0x01,
    0x03, 0x30, 0x0d, 0x06, 0x09, 0x2a, 0x86, 0x48, 0x86, 0xf7, 0x0d, 0x01,
    0x01, 0x0b, 0x05, 0x00, 0x03, 0x03, 0x00, 0xaa, 0xbb,
];

fn text(s: &str) -> String {
    String::from(s)
}

#[test]
fn certificate_is_described_by_its_fields() {
    let cert = CertificateDer::from(LEAF.to_vec());
    assert_eq!(describe_cert(&cert), "subject=CN=leaf issuer=CN=Test CA serial=1a2b len=141");
}

#[test]
fn bytes_that_follow_a_certificate_count_in_its_length() {
    let mut bytes = LEAF.to_vec();
    bytes.push(0);
    let cert = CertificateDer::from(bytes);
    assert_eq!(describe_cert(&cert), "subject=CN=leaf issuer=CN=Test CA serial=1a2b len=142");
}

#[test]
fn bytes_that_are_no_certificate_are_described_as_such() {
    let cert = CertificateDer::from(vec![1u8, 2, 3]);
    let description = describe_cert(&cert);
    assert!(description.starts_with("(unparseable: "));
    assert!(description.ends_with(") len=3"));
    assert!(description.len() > "(unparseable: ) len=3".len());
}

#[test]
fn no_bytes_are_described_as_no_certificate() {
    let cert = CertificateDer::from(Vec::<u8>::new());
    assert!(describe_cert(&cert).ends_with(") len=0"));
}

#[test]
fn fields_are_put_in_their_places() {
    let fields = Ok((text("S"), text("I"), text("ff")));
    assert_eq!(describe_fields(fields, 1234567890), "subject=S issuer=I serial=ff len=1234567890");
}

#[test]
fn an_error_is_put_in_its_place() {
    assert_eq!(describe_fields(Err(text("Error(InvalidSerial)")), 10), "(unparseable: Error(InvalidSerial)) len=10");
}

#[test]
fn lengths_are_decimal() {
    let len_of = |n: usize| describe_fields(Err(String::new()), n);
    assert_eq!(len_of(0), "(unparseable: ) len=0");
    assert_eq!(len_of(9), "(unparseable: ) len=9");
    assert_eq!(len_of(100), "(unparseable: ) len=100");
    assert_eq!(len_of(usize::MAX), format!("(unparseable: ) len={}", usize::MAX));
}
