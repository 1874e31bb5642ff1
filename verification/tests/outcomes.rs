use zerda::api::VenafiAPI;
use zerda::error::VenafiError;
use zerda::types::{ClassObject, ConfigRead, RetrievedCert, TypedNameValue, X509CertStore, FOOC};
use zerda::util::{generate_pass, validate_hostname};

fn api() -> VenafiAPI {
    let mut api = VenafiAPI::new("user", "hunter2", "h");
    api.get_api_key(200, "", Some("KEY-123".to_string())).unwrap();
    api
}

fn tnv(name: &str, value: &str) -> TypedNameValue {
    TypedNameValue {
        datatype: "String".to_string(),
        name: name.to_string(),
        value: value.to_string(),
    }
}

fn store(entries: Vec<TypedNameValue>) -> X509CertStore {
    X509CertStore {
        result: "1".to_string(),
        certificate: "".to_string(),
        typednamevalues: entries,
    }
}

#[test]
fn authorization_failure_carries_code_and_body() {
    let mut api = VenafiAPI::new("user", "wrong", "h");
    match api.get_api_key(401, "bad credentials", None) {
        Err(VenafiError::Api { status, body }) => {
            assert_eq!(status, 401);
            assert_eq!(body, "bad credentials");
        },
        _ => panic!("expected an API error"),
    }
    assert_eq!(api.apikey, "");
}

#[test]
fn authorization_success_stores_the_key() {
    let mut api = VenafiAPI::new("user", "hunter2", "h");
    api.get_api_key(200, "ignored", Some("THEKEY".to_string())).unwrap();
    assert_eq!(api.apikey, "THEKEY");
}

#[test]
fn unparsed_authorization_body_is_a_decode_error() {
    let mut api = VenafiAPI::new("user", "hunter2", "h");
    assert!(matches!(api.get_api_key(204, "{}", None), Err(VenafiError::Decode)));
    assert_eq!(api.apikey, "");
}

#[test]
fn base64_certificate_data_round_trips() {
    let api = api();
    let cert = RetrievedCert {
        data: "Zm9v".to_string(),
        filename: "foo.p12".to_string(),
        format: "PKCS #12".to_string(),
    };
    let bundle = api.fetch_certificate(200, "", Some(&cert), "pw").unwrap();
    assert_eq!(bundle.p12, b"foo".to_vec());
    assert_eq!(bundle.pwd, "pw");
}

#[test]
fn malformed_base64_is_a_decode_error() {
    let api = api();
    let cert = RetrievedCert {
        data: "!not base64!".to_string(),
        filename: "f".to_string(),
        format: "PKCS #12".to_string(),
    };
    assert!(matches!(api.fetch_certificate(200, "", Some(&cert), "pw"), Err(VenafiError::Decode)));
}

#[test]
fn each_endpoint_surfaces_the_exact_status_and_body() {
    let mut unauth = VenafiAPI::new("u", "p", "h");
    match unauth.get_api_key(401, "denied", None) {
        Err(VenafiError::Api { status, body }) => {
            assert_eq!((status, body.as_str()), (401, "denied"));
        },
        _ => panic!("expected an API error"),
    }
    let api = api();
    match api.fetch_cert_metadata(500, "oops", None) {
        Err(VenafiError::Api { status, body }) => {
            assert_eq!((status, body.as_str()), (500, "oops"));
        },
        _ => panic!("expected an API error"),
    }
    match api.fetch_certificate(404, "no such cert", None, "pw") {
        Err(VenafiError::Api { status, body }) => {
            assert_eq!((status, body.as_str()), (404, "no such cert"));
        },
        _ => panic!("expected an API error"),
    }
    match api.certificate_dn_outcome(403, "forbidden", None) {
        Err(VenafiError::Api { status, body }) => {
            assert_eq!((status, body.as_str()), (403, "forbidden"));
        },
        _ => panic!("expected an API error"),
    }
    match api.operation_outcome(502, "bad gateway") {
        Err(VenafiError::Api { status, body }) => {
            assert_eq!((status, body.as_str()), (502, "bad gateway"));
        },
        _ => panic!("expected an API error"),
    }
    match api.vault_id_outcome(503, "unavailable", None) {
        Err(VenafiError::Api { status, body }) => {
            assert_eq!((status, body.as_str()), (503, "unavailable"));
        },
        _ => panic!("expected an API error"),
    }
    match api.is_revoked(500, "boom", None) {
        Err(VenafiError::Api { status, body }) => {
            assert_eq!((status, body.as_str()), (500, "boom"));
        },
        _ => panic!("expected an API error"),
    }
}

#[test]
fn successful_operations_and_dn_extraction() {
    let api = api();
    assert!(api.operation_outcome(200, "").is_ok());
    let dn = api
        .certificate_dn_outcome(200, "", Some("\\VED\\Policy\\certs\\new".to_string()))
        .unwrap();
    assert_eq!(dn, "\\VED\\Policy\\certs\\new");
    assert!(matches!(api.certificate_dn_outcome(200, "", None), Err(VenafiError::Decode)));
}

#[test]
fn metadata_outcome_maps_dn_to_display_name() {
    let api = api();
    let objects = vec![
        ClassObject {
            absguid: "g1".to_string(),
            dn: "\\VED\\Policy\\certs\\a".to_string(),
            guid: "g1".to_string(),
            name: "a".to_string(),
            parent: "\\VED\\Policy\\certs".to_string(),
            typename: "X509 Server Certificate".to_string(),
        },
        ClassObject {
            absguid: "g2".to_string(),
            dn: "\\VED\\Policy\\certs\\b".to_string(),
            guid: "g2".to_string(),
            name: "b".to_string(),
            parent: "\\VED\\Policy\\certs".to_string(),
            typename: "X509 Server Certificate".to_string(),
        },
    ];
    let found = FOOC { objects, result: 1 };
    let map = api.fetch_cert_metadata(200, "", Some(&found)).unwrap();
    assert_eq!(map.len(), 2);
    assert_eq!(map[0].dn, "\\VED\\Policy\\certs\\a");
    assert_eq!(map[0].name, "a");
    assert_eq!(map[1].dn, "\\VED\\Policy\\certs\\b");
    assert_eq!(map[1].name, "b");
    assert!(matches!(api.fetch_cert_metadata(200, "", None), Err(VenafiError::Decode)));
}

#[test]
fn vault_id_is_the_first_value() {
    let api = api();
    let read = ConfigRead {
        objectdn: "\\VED\\x".to_string(),
        attribute: "Certificate Vault Id".to_string(),
        values: vec!["4711".to_string(), "extra".to_string()],
    };
    assert_eq!(api.vault_id_outcome(200, "", Some(&read)).unwrap(), "4711");
    let empty = ConfigRead {
        objectdn: "\\VED\\x".to_string(),
        attribute: "Certificate Vault Id".to_string(),
        values: vec![],
    };
    assert!(matches!(api.vault_id_outcome(200, "", Some(&empty)), Err(VenafiError::Decode)));
}

#[test]
fn revocation_requires_a_nonempty_status_value() {
    let api = api();
    let revoked = store(vec![tnv("Serial", "01"), tnv("Revocation Status", "2020-01-01")]);
    assert_eq!(api.is_revoked(200, "", Some(&revoked)).unwrap(), true);
    let empty_value = store(vec![tnv("Revocation Status", "")]);
    assert_eq!(api.is_revoked(200, "", Some(&empty_value)).unwrap(), false);
    let absent = store(vec![tnv("Serial", "01"), tnv("Status", "revoked")]);
    assert_eq!(api.is_revoked(200, "", Some(&absent)).unwrap(), false);
    let none = store(vec![]);
    assert_eq!(api.is_revoked(200, "", Some(&none)).unwrap(), false);
    assert!(matches!(api.is_revoked(200, "", None), Err(VenafiError::Decode)));
}

#[test]
fn generated_passwords_are_printable_and_long_enough() {
    let pass = generate_pass();
    assert_eq!(pass.chars().count(), 30);
    for c in pass.chars() {
        let v = c as u32;
        assert!((32..=127).contains(&v));
    }
    let other = generate_pass();
    assert_eq!(other.chars().count(), 30);
}

#[test]
fn hostname_validation() {
    assert!(validate_hostname("tpp.example.com"));
    assert!(validate_hostname("host_1-x"));
    assert!(validate_hostname("example.com."));
    assert!(validate_hostname("a"));
    assert!(!validate_hostname(""));
    assert!(!validate_hostname(".example.com"));
    assert!(!validate_hostname("a..b"));
    assert!(!validate_hostname("a b"));
    assert!(!validate_hostname("exa!mple"));
}
