use openssl::asn1::Asn1Time;
use openssl::hash::MessageDigest;
use openssl::pkcs12::Pkcs12;
use openssl::pkey::PKey;
use openssl::rsa::Rsa;
use openssl::x509::{X509, X509NameBuilder};
use zerda::api::VenafiAPI;
use zerda::error::VenafiError;
use zerda::types::P12Bundle;

const NOT_AFTER_UNIX: i64 = 1_000_000_000;

fn test_p12(password: &str) -> Vec<u8> {
    let rsa = Rsa::generate(2048).unwrap();
    let pkey = PKey::from_rsa(rsa).unwrap();
    let mut name = X509NameBuilder::new().unwrap();
    name.append_entry_by_text("CN", "expiry-test").unwrap();
    let name = name.build();
    let mut builder = X509::builder().unwrap();
    builder.set_version(2).unwrap();
    builder.set_subject_name(&name).unwrap();
    builder.set_issuer_name(&name).unwrap();
    builder.set_pubkey(&pkey).unwrap();
    builder.set_not_before(&Asn1Time::from_unix(0).unwrap()).unwrap();
    builder
        .set_not_after(&Asn1Time::from_unix(NOT_AFTER_UNIX).unwrap())
        .unwrap();
    builder.sign(&pkey, MessageDigest::sha256()).unwrap();
    let cert = builder.build();
    let p12 = Pkcs12::builder()
        .name("expiry-test")
        .pkey(&pkey)
        .cert(&cert)
        .build2(password)
        .unwrap();
    p12.to_der().unwrap()
}

#[test]
fn expired_certificate_gives_a_negative_day_count() {
    let api = VenafiAPI::new("u", "p", "h");
    let bundle = P12Bundle { p12: test_p12("pw"), pwd: "pw".to_string() };
    let days = api.fetch_expiry(&bundle, NOT_AFTER_UNIX + 3 * 86400).unwrap();
    assert_eq!(days, -3);
    let one_second_past = api.fetch_expiry(&bundle, NOT_AFTER_UNIX + 1).unwrap();
    assert_eq!(one_second_past, -1);
}

#[test]
fn future_certificate_gives_the_remaining_days() {
    let api = VenafiAPI::new("u", "p", "h");
    let bundle = P12Bundle { p12: test_p12("pw"), pwd: "pw".to_string() };
    let days = api.fetch_expiry(&bundle, NOT_AFTER_UNIX - 10 * 86400).unwrap();
    assert_eq!(days, 10);
    let same_moment = api.fetch_expiry(&bundle, NOT_AFTER_UNIX).unwrap();
    assert_eq!(same_moment, 0);
}

#[test]
fn wrong_password_is_a_parse_error() {
    let api = VenafiAPI::new("u", "p", "h");
    let bundle = P12Bundle { p12: test_p12("pw"), pwd: "other".to_string() };
    assert!(matches!(
        api.fetch_expiry(&bundle, NOT_AFTER_UNIX),
        Err(VenafiError::CertificateParse)
    ));
}

#[test]
fn garbage_bytes_are_a_parse_error() {
    let api = VenafiAPI::new("u", "p", "h");
    let bundle = P12Bundle { p12: vec![0u8, 1, 2, 3], pwd: "pw".to_string() };
    assert!(matches!(
        api.fetch_expiry(&bundle, NOT_AFTER_UNIX),
        Err(VenafiError::CertificateParse)
    ));
}
