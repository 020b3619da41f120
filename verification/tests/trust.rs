use pg_bootstrap::error::{BootstrapError, ErrorKind};
use pg_bootstrap::trust::TrustStore;

const ROOT_ONE: &str = "-----BEGIN CERTIFICATE-----\n\
MIIBmzCCAUGgAwIBAgIUAXzX4WafEQs8Q9K+UwZt0MGLpoAwCgYIKoZIzj0EAwIw\n\
IjEgMB4GA1UEAwwXYm9vdHN0cmFwIHRlc3Qgcm9vdCBvbmUwIBcNMjYxMDI4MjIz\n\
MDQ4WhgPMjEyNjEwMDQyMjMwNDhaMCIxIDAeBgNVBAMMF2Jvb3RzdHJhcCB0ZXN0\n\
IHJvb3Qgb25lMFkwEwYHKoZIzj0CAQYIKoZIzj0DAQcDQgAENt4kfeSMuwrZrKPG\n\
+DcFkWtwc1fs5MEKV09iLGa/6f95KmC1NZzxwsao23IBPkfLY243I1rnPSIYbxCr\n\
BRw9rqNTMFEwHQYDVR0OBBYEFEsf0JIDL64ww1ynkD6qXDa9iK+CMB8GA1UdIwQY\n\
MBaAFEsf0JIDL64ww1ynkD6qXDa9iK+CMA8GA1UdEwEB/wQFMAMBAf8wCgYIKoZI\n\
zj0EAwIDSAAwRQIgVu85WAi6EnbAlpNpkPY211osqoL7ELUHNhqokati2F4CIQCT\n\
S+QSbqVd3B1CFrU0StKsen6VsX2SYslH2mf5JdF7EQ==\n\
-----END CERTIFICATE-----\n\
";

const ROOT_TWO: &str = "-----BEGIN CERTIFICATE-----\n\
MIIBmjCCAUGgAwIBAgIURBV43WN0DIYk2g99/VU7SnSWXdQwCgYIKoZIzj0EAwIw\n\
IjEgMB4GA1UEAwwXYm9vdHN0cmFwIHRlc3Qgcm9vdCB0d28wIBcNMjYxMDI4MjIz\n\
MDQ4WhgPMjEyNjEwMDQyMjMwNDhaMCIxIDAeBgNVBAMMF2Jvb3RzdHJhcCB0ZXN0\n\
IHJvb3QgdHdvMFkwEwYHKoZIzj0CAQYIKoZIzj0DAQcDQgAEROjf7jjh6ItBb9uL\n\
4Gkqm9VTrM9Hv2AhkjLmN/uzReYvU3CzaZdx4VYde6OKchlRQ81QLi6jTNlUeZ8O\n\
Bxbrg6NTMFEwHQYDVR0OBBYEFBuWsSXVT8d6XDfzxGGCQqIVOC/MMB8GA1UdIwQY\n\
MBaAFBuWsSXVT8d6XDfzxGGCQqIVOC/MMA8GA1UdEwEB/wQFMAMBAf8wCgYIKoZI\n\
zj0EAwIDRwAwRAIgYz71WBs80IXccWSMa1h73s9PCeQ8YaPKHUbupNwiAs8CIAnR\n\
JykND9Zf4GQTiUsrsBv+EkQ9tAbMG14MSIsRSxnZ\n\
-----END CERTIFICATE-----\n\
";

const ROOT_THREE: &str = "-----BEGIN CERTIFICATE-----\n\
MIIBoDCCAUWgAwIBAgIUDbVRZtk7NP8jm/SrYIk5GoRB3cwwCgYIKoZIzj0EAwIw\n\
JDEiMCAGA1UEAwwZYm9vdHN0cmFwIHRlc3Qgcm9vdCB0aHJlZTAgFw0yNjEwMjgy\n\
MjMwNDhaGA8yMTI2MTAwNDIyMzA0OFowJDEiMCAGA1UEAwwZYm9vdHN0cmFwIHRl\n\
c3Qgcm9vdCB0aHJlZTBZMBMGByqGSM49AgEGCCqGSM49AwEHA0IABF0cGYVFR8q5\n\
YwC6CPcWpxHdN3RvX4Hf8+wGqsh55ExiNa+yiOvuA/vo8/TW/fuBkpdz9KpqPZaL\n\
eBodSCJhvRejUzBRMB0GA1UdDgQWBBS2tgvX/pqqlrysOa7I/W+mMFvLZDAfBgNV\n\
HSMEGDAWgBS2tgvX/pqqlrysOa7I/W+mMFvLZDAPBgNVHRMBAf8EBTADAQH/MAoG\n\
CCqGSM49BAMCA0kAMEYCIQCzxsUfWST3HxmzGD9EsZmHByTcnKTFdz8VVXwREv+a\n\
lwIhAMCTjpWvZfzTsMA0x4iNUksynx8gau6pfcRwwgIL1zko\n\
-----END CERTIFICATE-----\n\
";

const PUBLIC_KEY: &str = "-----BEGIN PUBLIC KEY-----\n\
MFkwEwYHKoZIzj0CAQYIKoZIzj0DAQcDQgAENt4kfeSMuwrZrKPG+DcFkWtwc1fs\n\
5MEKV09iLGa/6f95KmC1NZzxwsao23IBPkfLY243I1rnPSIYbxCrBRw9rg==\n\
-----END PUBLIC KEY-----\n\
";

const NOT_A_CERTIFICATE: &str = "-----BEGIN CERTIFICATE-----\n\
dGhpcyBpcyBub3QgYSBjZXJ0aWZpY2F0ZSBhdCBhbGwsIG9ubHkgc29tZSB0ZXh0\n\
-----END CERTIFICATE-----\n\
";

const SUBJECT_ONE: &[u8] = b"bootstrap test root one";
const SUBJECT_TWO: &[u8] = b"bootstrap test root two";
const SUBJECT_THREE: &[u8] = b"bootstrap test root three";

fn sextet(symbol: u8) -> Option<u32> {
    match symbol {
        b'A'..=b'Z' => Some((symbol - b'A') as u32),
        b'a'..=b'z' => Some((symbol - b'a') as u32 + 26),
        b'0'..=b'9' => Some((symbol - b'0') as u32 + 52),
        b'+' => Some(62),
        b'/' => Some(63),
        _ => None,
    }
}

/// The bytes between the first pair of PEM markers, decoded by hand.
fn der_of(pem: &str) -> Vec<u8> {
    let mut out = Vec::new();
    let mut buffer: u32 = 0;
    let mut bits = 0;
    for line in pem.lines().skip(1) {
        if line.starts_with("-----") {
            break;
        }
        for symbol in line.bytes() {
            if let Some(value) = sextet(symbol) {
                buffer = (buffer << 6) | value;
                bits += 6;
                if bits >= 8 {
                    bits -= 8;
                    out.push((buffer >> bits) as u8);
                    buffer &= (1 << bits) - 1;
                }
            }
        }
    }
    out
}

fn parse_error(path: &str) -> BootstrapError {
    BootstrapError::CertificateParse { path: path.to_string() }
}

fn failure(outcome: Result<TrustStore, BootstrapError>) -> BootstrapError {
    match outcome {
        Ok(store) => panic!("expected a failure, got a store of {}", store.len()),
        Err(error) => error,
    }
}

#[test]
fn hand_decoding_gives_a_der_sequence() {
    let der = der_of(ROOT_ONE);
    assert_eq!(&der[..4], &[0x30, 0x82, 0x01, 0x9b]);
    assert_eq!(der.len(), 4 + 0x19b);
}

#[test]
fn one_certificate_makes_a_store_of_one() {
    let store = TrustStore::from_pem("ca.pem", ROOT_ONE.as_bytes()).unwrap();
    assert_eq!(store.len(), 1);
    assert_eq!(store.certificates(), &vec![der_of(ROOT_ONE)]);
    assert_eq!(store.roots().len(), 1);
    assert!(store.roots().roots[0].subject.as_ref().ends_with(SUBJECT_ONE));
}

#[test]
fn three_certificates_make_a_store_of_three_in_file_order() {
    let file = format!("{}{}{}", ROOT_TWO, ROOT_ONE, ROOT_THREE);
    let store = TrustStore::from_pem("chain.pem", file.as_bytes()).unwrap();
    assert_eq!(store.len(), 3);
    assert_eq!(store.certificates(), &vec![der_of(ROOT_TWO), der_of(ROOT_ONE), der_of(ROOT_THREE)]);
    let roots = &store.roots().roots;
    assert_eq!(roots.len(), 3);
    assert!(roots[0].subject.as_ref().ends_with(SUBJECT_TWO));
    assert!(roots[1].subject.as_ref().ends_with(SUBJECT_ONE));
    assert!(roots[2].subject.as_ref().ends_with(SUBJECT_THREE));
}

#[test]
fn every_entry_matches_its_certificate() {
    let inputs = [ROOT_ONE, ROOT_TWO, ROOT_THREE];
    for count in 1..=3 {
        let file: String = inputs[..count].concat();
        let store = TrustStore::from_pem("roots.pem", file.as_bytes()).unwrap();
        assert_eq!(store.len(), count);
        assert_eq!(store.roots().roots.len(), count);
        for (i, input) in inputs[..count].iter().enumerate() {
            assert_eq!(store.certificates()[i], der_of(input));
        }
    }
}

#[test]
fn the_same_certificate_twice_is_kept_twice() {
    let file = format!("{}{}", ROOT_ONE, ROOT_ONE);
    let store = TrustStore::from_pem("twice.pem", file.as_bytes()).unwrap();
    assert_eq!(store.len(), 2);
    assert_eq!(store.roots().roots.len(), 2);
}

#[test]
fn text_between_certificates_is_passed_over() {
    let file = format!("# trusted roots\n{}\nsecond root follows\n\n{}trailing words\n", ROOT_ONE, ROOT_TWO);
    let store = TrustStore::from_pem("notes.pem", file.as_bytes()).unwrap();
    assert_eq!(store.certificates(), &vec![der_of(ROOT_ONE), der_of(ROOT_TWO)]);
}

#[test]
fn sections_of_other_kinds_are_passed_over() {
    let file = format!("{}{}{}", PUBLIC_KEY, ROOT_THREE, PUBLIC_KEY);
    let store = TrustStore::from_pem("mixed.pem", file.as_bytes()).unwrap();
    assert_eq!(store.len(), 1);
    assert_eq!(store.certificates(), &vec![der_of(ROOT_THREE)]);
    assert!(store.roots().roots[0].subject.as_ref().ends_with(SUBJECT_THREE));
}

#[test]
fn an_empty_file_is_a_parse_failure() {
    let error = failure(TrustStore::from_pem("empty.pem", b""));
    assert_eq!(error, parse_error("empty.pem"));
    assert_eq!(error.kind(), ErrorKind::CertificateParseError);
}

#[test]
fn garbage_text_is_a_parse_failure() {
    let error = failure(TrustStore::from_pem("/tmp/garbage", b"this file holds no certificate\nat all\n"));
    assert_eq!(error, parse_error("/tmp/garbage"));
}

#[test]
fn a_file_of_other_sections_only_is_a_parse_failure() {
    let error = failure(TrustStore::from_pem("key.pem", PUBLIC_KEY.as_bytes()));
    assert_eq!(error, parse_error("key.pem"));
}

#[test]
fn a_section_without_end_is_a_parse_failure() {
    let cut = ROOT_ONE.replace("-----END CERTIFICATE-----\n", "");
    let error = failure(TrustStore::from_pem("cut.pem", cut.as_bytes()));
    assert_eq!(error, parse_error("cut.pem"));
}

#[test]
fn a_section_that_is_not_base64_is_a_parse_failure() {
    let file = "-----BEGIN CERTIFICATE-----\n!!!! not base64 !!!!\n-----END CERTIFICATE-----\n";
    let error = failure(TrustStore::from_pem("bad.pem", file.as_bytes()));
    assert_eq!(error, parse_error("bad.pem"));
}

#[test]
fn a_certificate_section_that_holds_no_certificate_is_a_parse_failure() {
    let error = failure(TrustStore::from_pem("odd.pem", NOT_A_CERTIFICATE.as_bytes()));
    assert_eq!(error, parse_error("odd.pem"));
}

#[test]
fn one_bad_certificate_fails_the_whole_store() {
    let file = format!("{}{}{}", ROOT_ONE, NOT_A_CERTIFICATE, ROOT_TWO);
    let error = failure(TrustStore::from_pem("partly.pem", file.as_bytes()));
    assert_eq!(error, parse_error("partly.pem"));

    let file = format!("{}{}", ROOT_ONE, ROOT_TWO.replace("-----END CERTIFICATE-----\n", ""));
    let error = failure(TrustStore::from_pem("partly.pem", file.as_bytes()));
    assert_eq!(error, parse_error("partly.pem"));
}

#[test]
fn from_certificates_takes_der() {
    let store = TrustStore::from_certificates("ca.pem", vec![der_of(ROOT_ONE), der_of(ROOT_TWO)]).unwrap();
    assert_eq!(store.len(), 2);
    assert_eq!(store.certificates(), &vec![der_of(ROOT_ONE), der_of(ROOT_TWO)]);
    assert_eq!(store.roots().roots.len(), 2);
    assert!(store.roots().roots[1].subject.as_ref().ends_with(SUBJECT_TWO));
}

#[test]
fn from_certificates_refuses_an_empty_list() {
    let error = failure(TrustStore::from_certificates("none.pem", Vec::new()));
    assert_eq!(error, parse_error("none.pem"));
}

#[test]
fn from_certificates_refuses_a_list_with_a_bad_certificate() {
    let error = failure(TrustStore::from_certificates("bad.pem", vec![der_of(ROOT_ONE), vec![0x30, 0x00]]));
    assert_eq!(error, parse_error("bad.pem"));
    let error = failure(TrustStore::from_certificates("bad.pem", vec![Vec::new()]));
    assert_eq!(error, parse_error("bad.pem"));
}

#[test]
fn into_parts_hands_out_certificates_and_anchors() {
    let file = format!("{}{}", ROOT_THREE, ROOT_ONE);
    let store = TrustStore::from_pem("ca.pem", file.as_bytes()).unwrap();
    let (certs, roots) = store.into_parts();
    assert_eq!(certs, vec![der_of(ROOT_THREE), der_of(ROOT_ONE)]);
    assert_eq!(roots.len(), 2);
    assert!(roots.roots[0].subject.as_ref().ends_with(SUBJECT_THREE));
    assert!(roots.roots[1].subject.as_ref().ends_with(SUBJECT_ONE));
}
