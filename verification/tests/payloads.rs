use zerda::api::VenafiAPI;
use zerda::types::{Config, DnEntry, Method, NameAttrib, CertificateRequest, CreateAppRequest,
    WriteDNRequest};
use zerda::error::VenafiError;

fn configured_api() -> VenafiAPI {
    let mut api = VenafiAPI::new("user", "hunter2", "https://tpp.example.com");
    api.set_config(Config {
        folders: vec![
            DnEntry { name: "certs".to_string(), dn: "\\VED\\Policy\\certs".to_string() },
        ],
        certauthorities: vec![
            DnEntry { name: "internal".to_string(), dn: "\\VED\\CA\\internal".to_string() },
        ],
    });
    api.get_api_key(200, "", Some("KEY-123".to_string())).unwrap();
    api
}

#[test]
fn auth_request_shape() {
    let api = VenafiAPI::new("user", "hunter2", "https://tpp.example.com");
    let req = api.get_api_key_request();
    assert!(matches!(req.method, Method::Get));
    assert_eq!(req.path, "Authorize/");
    assert!(req.api_key.is_none());
    assert_eq!(req.body.unwrap(), "{\"Username\":\"user\",\"Password\":\"hunter2\"}");
}

#[test]
fn auth_request_escapes_credentials() {
    let api = VenafiAPI::new("u\"x\\y", "p\nq\tz", "h");
    let req = api.get_api_key_request();
    assert_eq!(
        req.body.unwrap(),
        "{\"Username\":\"u\\\"x\\\\y\",\"Password\":\"p\\nq\\tz\"}"
    );
}

#[test]
fn control_characters_get_unicode_escapes() {
    let api = VenafiAPI::new("a\u{1}b", "c\r", "h");
    let req = api.get_api_key_request();
    assert_eq!(
        req.body.unwrap(),
        "{\"Username\":\"a\\u0001b\",\"Password\":\"c\\r\"}"
    );
}

#[test]
fn operations_before_authentication_are_refused() {
    let api = VenafiAPI::new("user", "hunter2", "h");
    assert!(matches!(api.renew_certificate("\\VED\\x"), Err(VenafiError::Unauthenticated)));
    assert!(matches!(api.revoke_certificate("\\VED\\x"), Err(VenafiError::Unauthenticated)));
    assert!(matches!(api.is_revoked_request("\\VED\\x"), Err(VenafiError::Unauthenticated)));
    assert!(matches!(
        api.fetch_certificate_request("\\VED\\x", "PKCS #12", true, true, "pw"),
        Err(VenafiError::Unauthenticated)
    ));
    assert!(matches!(
        api.request_certificate("s", vec![], "internal", "certs"),
        Err(VenafiError::Unauthenticated)
    ));
}

#[test]
fn authenticated_requests_attach_the_stored_key() {
    let api = configured_api();
    assert_eq!(api.apikey, "KEY-123");
    let renew = api.renew_certificate("\\VED\\x").unwrap();
    assert_eq!(renew.api_key.as_deref(), Some("KEY-123"));
    let revoke = api.revoke_certificate("\\VED\\x").unwrap();
    assert_eq!(revoke.api_key.as_deref(), Some("KEY-123"));
    let meta = api.fetch_cert_metadata_request("\\VED\\Policy\\certs").unwrap();
    assert_eq!(meta.api_key.as_deref(), Some("KEY-123"));
    let read = api.is_revoked_request("\\VED\\x").unwrap();
    assert_eq!(read.api_key.as_deref(), Some("KEY-123"));
    let vault = api.vault_request("4711").unwrap();
    assert_eq!(vault.api_key.as_deref(), Some("KEY-123"));
    let request = api.request_certificate("s", vec![], "internal", "certs").unwrap();
    assert_eq!(request.api_key.as_deref(), Some("KEY-123"));
}

#[test]
fn unknown_ca_fails_resolution_without_a_request() {
    let api = configured_api();
    match api.request_certificate("www.foo.com", vec![], "nosuchca", "certs") {
        Err(VenafiError::ConfigResolution(name)) => assert_eq!(name, "nosuchca"),
        _ => panic!("expected a resolution failure for the CA name"),
    }
    match api.request_with_csr("obj", "csrdata", "nosuchca", "certs") {
        Err(VenafiError::ConfigResolution(name)) => assert_eq!(name, "nosuchca"),
        _ => panic!("expected a resolution failure for the CA name"),
    }
}

#[test]
fn unknown_folder_fails_resolution_without_a_request() {
    let api = configured_api();
    match api.request_certificate("www.foo.com", vec![], "internal", "nosuchfolder") {
        Err(VenafiError::ConfigResolution(name)) => assert_eq!(name, "nosuchfolder"),
        _ => panic!("expected a resolution failure for the folder name"),
    }
    match api.request_with_csr("obj", "csrdata", "internal", "nosuchfolder") {
        Err(VenafiError::ConfigResolution(name)) => assert_eq!(name, "nosuchfolder"),
        _ => panic!("expected a resolution failure for the folder name"),
    }
}

#[test]
fn single_san_is_included_in_the_payload() {
    let api = configured_api();
    let req = api
        .request_certificate("www.foo.com", vec!["www.foo.com"], "internal", "certs")
        .unwrap();
    assert!(matches!(req.method, Method::Post));
    assert_eq!(req.path, "Certificates/Request");
    assert_eq!(
        req.body.unwrap(),
        "{\"PolicyDN\":\"\\\\VED\\\\Policy\\\\certs\",\"CADN\":\"\\\\VED\\\\CA\\\\internal\",\
         \"CASpecificAttributes\":[],\"Subject\":\"www.foo.com\",\
         \"SubjectAltNames\":[{\"TypeName\":2,\"Name\":\"www.foo.com\"}],\
         \"ObjectName\":null,\"PKCS10\":null}"
    );
}

#[test]
fn empty_san_list_is_sent_as_null() {
    let api = configured_api();
    let req = api.request_certificate("www.foo.com", vec![], "internal", "certs").unwrap();
    let body = req.body.unwrap();
    assert!(body.contains("\"SubjectAltNames\":null"));
}

#[test]
fn two_sans_are_joined_with_a_comma() {
    let api = configured_api();
    let req = api
        .request_certificate("www.foo.com", vec!["a.foo.com", "b.foo.com"], "internal", "certs")
        .unwrap();
    let body = req.body.unwrap();
    assert!(body.contains(
        "\"SubjectAltNames\":[{\"TypeName\":2,\"Name\":\"a.foo.com\"},\
         {\"TypeName\":2,\"Name\":\"b.foo.com\"}]"
    ));
}

#[test]
fn csr_request_carries_object_name_and_pkcs10() {
    let api = configured_api();
    let req = api.request_with_csr("myobj", "CSRDATA", "internal", "certs").unwrap();
    assert_eq!(req.path, "Certificates/Request");
    assert_eq!(
        req.body.unwrap(),
        "{\"PolicyDN\":\"\\\\VED\\\\Policy\\\\certs\",\"CADN\":\"\\\\VED\\\\CA\\\\internal\",\
         \"CASpecificAttributes\":[],\"Subject\":null,\"SubjectAltNames\":null,\
         \"ObjectName\":\"myobj\",\"PKCS10\":\"CSRDATA\"}"
    );
}

#[test]
fn retrieve_request_with_private_key_carries_the_password() {
    let api = configured_api();
    let req = api
        .fetch_certificate_request("\\VED\\x", "PKCS #12", true, true, "pw123")
        .unwrap();
    assert_eq!(req.path, "Certificates/Retrieve");
    assert_eq!(
        req.body.unwrap(),
        "{\"CertificateDN\":\"\\\\VED\\\\x\",\"Format\":\"PKCS #12\",\"IncludeChain\":true,\
         \"IncludePrivateKey\":true,\"Password\":\"pw123\"}"
    );
}

#[test]
fn retrieve_request_without_private_key_has_no_password() {
    let api = configured_api();
    let req = api
        .fetch_certificate_request("\\VED\\x", "Base64", false, false, "unused")
        .unwrap();
    assert_eq!(
        req.body.unwrap(),
        "{\"CertificateDN\":\"\\\\VED\\\\x\",\"Format\":\"Base64\",\"IncludeChain\":false,\
         \"IncludePrivateKey\":false}"
    );
}

#[test]
fn renew_and_revoke_payloads() {
    let api = configured_api();
    let renew = api.renew_certificate("\\VED\\x").unwrap();
    assert_eq!(renew.path, "Certificates/Renew");
    assert_eq!(renew.body.unwrap(), "{\"CertificateDN\":\"\\\\VED\\\\x\"}");
    let revoke = api.revoke_certificate("\\VED\\x").unwrap();
    assert_eq!(revoke.path, "Certificates/Revoke");
    assert_eq!(
        revoke.body.unwrap(),
        "{\"CertificateDN\":\"\\\\VED\\\\x\",\"Reason\":0,\"Comments\":\"Revoked via API\"}"
    );
}

#[test]
fn revocation_check_payloads() {
    let api = configured_api();
    let read = api.is_revoked_request("\\VED\\x").unwrap();
    assert_eq!(read.path, "Config/Read");
    assert_eq!(
        read.body.unwrap(),
        "{\"ObjectDN\":\"\\\\VED\\\\x\",\"AttributeName\":\"Certificate Vault Id\"}"
    );
    let vault = api.vault_request("4711").unwrap();
    assert_eq!(vault.path, "X509CertificateStore/Retrieve");
    assert_eq!(vault.body.unwrap(), "{\"VaultId\":\"4711\"}");
}

#[test]
fn metadata_request_payload() {
    let api = configured_api();
    let req = api.fetch_cert_metadata_request("\\VED\\Policy\\certs").unwrap();
    assert_eq!(req.path, "Config/FindObjectsOfClass");
    assert_eq!(
        req.body.unwrap(),
        "{\"Class\":\"X509 Server Certificate\",\"ObjectDN\":\"\\\\VED\\\\Policy\\\\certs\",\
         \"Recursive\":true}"
    );
}

#[test]
fn certificate_request_record_serializes_every_field() {
    let req = CertificateRequest {
        policydn: "p".to_string(),
        cadn: "c".to_string(),
        specific: vec![
            NameAttrib { name: "Validity Period".to_string(), value: "365".to_string() },
            NameAttrib { name: "Renewal".to_string(), value: "auto".to_string() },
        ],
        subject: Some("s".to_string()),
        san: Some(vec!["a".to_string()]),
        objectname: None,
        csr: None,
    };
    assert_eq!(
        req.to_json(),
        "{\"PolicyDN\":\"p\",\"CADN\":\"c\",\
         \"CASpecificAttributes\":[{\"Name\":\"Validity Period\",\"Value\":\"365\"},\
         {\"Name\":\"Renewal\",\"Value\":\"auto\"}],\
         \"Subject\":\"s\",\"SubjectAltNames\":[{\"TypeName\":2,\"Name\":\"a\"}],\
         \"ObjectName\":null,\"PKCS10\":null}"
    );
}

#[test]
fn create_app_and_write_dn_serialize() {
    let app = CreateAppRequest {
        objectdn: "\\VED\\app".to_string(),
        class: "Basic".to_string(),
        nal: vec![NameAttrib { name: "Driver Name".to_string(), value: "appbasic".to_string() }],
    };
    assert_eq!(
        app.to_json(),
        "{\"ObjectDN\":\"\\\\VED\\\\app\",\"Class\":\"Basic\",\
         \"NameAttributeList\":[{\"Name\":\"Driver Name\",\"Value\":\"appbasic\"}]}"
    );
    let write = WriteDNRequest {
        objectdn: "\\VED\\app".to_string(),
        attrib: "Certificate".to_string(),
        values: vec!["\\VED\\cert".to_string(), "x".to_string()],
    };
    assert_eq!(
        write.to_json(),
        "{\"ObjectDN\":\"\\\\VED\\\\app\",\"AttributeName\":\"Certificate\",\
         \"Values\":[\"\\\\VED\\\\cert\",\"x\"]}"
    );
}
