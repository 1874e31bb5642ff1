//! The client: session state, one request builder and one response
//! interpreter per endpoint.
//!
//! The caller owns the transport.  For each operation it asks the client
//! for an [`HttpRequest`], performs it, and hands the outcome back as the
//! HTTP status, the raw body text, and the parsed record (or nothing when
//! the body did not parse).  Everything the client decides — which key the
//! request carries, which payload is sent, how a response is read — is
//! stated in the contracts.

use vstd::prelude::*;
use crate::codec::{b64_decoded, decode_base64};
use crate::error::VenafiError;
use crate::expiry::{days_until, p12_expiry, p12_not_after};
use crate::json::{json_str, push_json_str};
use crate::types::{
    lookup, opt_view, seq_views, spec_cert_payload, spec_lookup, Auth, CertificateRequest,
    Config, ConfigRead, DnEntry, FOOC, HttpRequest, Method, P12Bundle, RequestModel,
    RetrievedCert, TypedNameValue, X509CertStore,
};

verus! {

/// A session with the platform: credentials, the API key received on
/// authentication (empty until then), and the name-resolution
/// configuration.
pub struct VenafiAPI {
    pub auth: Auth,
    pub apikey: String,
    pub config: Config,
}

/// Whether the session holds an API key.
pub open spec fn spec_authenticated(api: VenafiAPI) -> bool {
    api.apikey@.len() > 0
}

/// Whether an HTTP status reports success.
pub open spec fn spec_status_ok(status: u16) -> bool {
    200 <= status < 300
}

/// Decides whether an HTTP status reports success.
pub fn status_ok(status: u16) -> (r: bool)
    ensures
        r == spec_status_ok(status),
{
    200 <= status && status < 300
}

/// The authorization exchange: credentials as JSON, no API key attached.
pub open spec fn spec_auth_request(api: VenafiAPI) -> RequestModel {
    RequestModel {
        method: Method::Get,
        path: "Authorize/"@,
        api_key: None,
        body: Some(
            "{\"Username\":"@ + json_str(api.auth.user@) + ",\"Password\":"@ + json_str(
                api.auth.pass@,
            ) + "}"@,
        ),
    }
}

/// The recursive object-class search below one folder.
pub open spec fn spec_fooc_request(api: VenafiAPI, folder_dn: Seq<char>) -> RequestModel {
    RequestModel {
        method: Method::Post,
        path: "Config/FindObjectsOfClass"@,
        api_key: Some(api.apikey@),
        body: Some(
            "{\"Class\":\"X509 Server Certificate\",\"ObjectDN\":"@ + json_str(folder_dn)
                + ",\"Recursive\":true}"@,
        ),
    }
}

/// What a boolean contributes to a payload.
pub open spec fn spec_bool_json(b: bool) -> Seq<char> {
    if b {
        "true"@
    } else {
        "false"@
    }
}

/// The certificate retrieval body; the password field is attached exactly
/// when the private key is requested.
pub open spec fn spec_retrieve_payload(
    dn: Seq<char>,
    fmt: Seq<char>,
    chain: bool,
    pkey: bool,
    pwd: Seq<char>,
) -> Seq<char> {
    "{\"CertificateDN\":"@ + json_str(dn) + ",\"Format\":"@ + json_str(fmt)
        + ",\"IncludeChain\":"@ + spec_bool_json(chain) + ",\"IncludePrivateKey\":"@
        + spec_bool_json(pkey) + (if pkey {
        ",\"Password\":"@ + json_str(pwd)
    } else {
        Seq::<char>::empty()
    }) + "}"@
}

/// The certificate retrieval request.
pub open spec fn spec_retrieve_request(
    api: VenafiAPI,
    dn: Seq<char>,
    fmt: Seq<char>,
    chain: bool,
    pkey: bool,
    pwd: Seq<char>,
) -> RequestModel {
    RequestModel {
        method: Method::Post,
        path: "Certificates/Retrieve"@,
        api_key: Some(api.apikey@),
        body: Some(spec_retrieve_payload(dn, fmt, chain, pkey, pwd)),
    }
}

/// The subject-based certificate request; the subject-alternative-name
/// list is attached whenever it is non-empty, a single name included.
pub open spec fn spec_request_certificate_model(
    api: VenafiAPI,
    subj: Seq<char>,
    san: Seq<Seq<char>>,
    ca: Seq<char>,
    pdn: Seq<char>,
) -> RequestModel {
    RequestModel {
        method: Method::Post,
        path: "Certificates/Request"@,
        api_key: Some(api.apikey@),
        body: Some(
            spec_cert_payload(
                spec_lookup(api.config.folders@, pdn).unwrap(),
                spec_lookup(api.config.certauthorities@, ca).unwrap(),
                Seq::empty(),
                Some(subj),
                if san.len() >= 1 {
                    Some(san)
                } else {
                    None
                },
                None,
                None,
            ),
        ),
    }
}

/// The CSR-based certificate request: object name and PKCS#10 text, no
/// subject and no subject-alternative names.
pub open spec fn spec_request_with_csr_model(
    api: VenafiAPI,
    name: Seq<char>,
    csr: Seq<char>,
    ca: Seq<char>,
    pdn: Seq<char>,
) -> RequestModel {
    RequestModel {
        method: Method::Post,
        path: "Certificates/Request"@,
        api_key: Some(api.apikey@),
        body: Some(
            spec_cert_payload(
                spec_lookup(api.config.folders@, pdn).unwrap(),
                spec_lookup(api.config.certauthorities@, ca).unwrap(),
                Seq::empty(),
                None,
                None,
                Some(name),
                Some(csr),
            ),
        ),
    }
}

/// The certificate renewal request.
pub open spec fn spec_renew_request(api: VenafiAPI, dn: Seq<char>) -> RequestModel {
    RequestModel {
        method: Method::Post,
        path: "Certificates/Renew"@,
        api_key: Some(api.apikey@),
        body: Some("{\"CertificateDN\":"@ + json_str(dn) + "}"@),
    }
}

/// The certificate revocation request, with the fixed reason and comment.
pub open spec fn spec_revoke_request(api: VenafiAPI, dn: Seq<char>) -> RequestModel {
    RequestModel {
        method: Method::Post,
        path: "Certificates/Revoke"@,
        api_key: Some(api.apikey@),
        body: Some(
            "{\"CertificateDN\":"@ + json_str(dn)
                + ",\"Reason\":0,\"Comments\":\"Revoked via API\"}"@,
        ),
    }
}

/// The configuration read that asks for a certificate's vault identifier.
pub open spec fn spec_config_read_request(api: VenafiAPI, dn: Seq<char>) -> RequestModel {
    RequestModel {
        method: Method::Post,
        path: "Config/Read"@,
        api_key: Some(api.apikey@),
        body: Some(
            "{\"ObjectDN\":"@ + json_str(dn) + ",\"AttributeName\":\"Certificate Vault Id\"}"@,
        ),
    }
}

/// The certificate-store retrieval by vault identifier.
pub open spec fn spec_vault_request(api: VenafiAPI, vault_id: Seq<char>) -> RequestModel {
    RequestModel {
        method: Method::Post,
        path: "X509CertificateStore/Retrieve"@,
        api_key: Some(api.apikey@),
        body: Some("{\"VaultId\":"@ + json_str(vault_id) + "}"@),
    }
}

/// Whether a name/value list signals revocation: it holds an entry named
/// `Revocation Status` with a non-empty value.
pub open spec fn spec_revoked(list: Seq<TypedNameValue>) -> bool {
    exists|i: int|
        0 <= i < list.len() && (#[trigger] list[i]).name@ == "Revocation Status"@
            && list[i].value@.len() > 0
}

/// Decides whether a name/value list signals revocation.
pub fn revocation_status(list: &Vec<TypedNameValue>) -> (r: bool)
    ensures
        r == spec_revoked(list@),
{
    let target = String::from_str("Revocation Status");
    let n = list.len();
    let mut i: usize = 0;
    while i < n
        invariant
            i <= n,
            n == list@.len(),
            target@ == "Revocation Status"@,
            forall|j: int|
                0 <= j < i ==> !((#[trigger] list@[j]).name@ == "Revocation Status"@
                    && list@[j].value@.len() > 0),
        decreases n - i,
    {
        if list[i].name == target && !list[i].value.as_str().is_empty() {
            assert(spec_revoked(list@));
            return true;
        }
        i += 1;
    }
    false
}

impl VenafiAPI {
    /// A fresh, unauthenticated session with an empty configuration.
    pub fn new(user: &str, pass: &str, host: &str) -> (r: VenafiAPI)
        ensures
            r.auth.user@ == user@,
            r.auth.pass@ == pass@,
            r.auth.host@ == host@,
            !spec_authenticated(r),
            r.config.folders@.len() == 0,
            r.config.certauthorities@.len() == 0,
    {
        VenafiAPI {
            auth: Auth {
                user: String::from_str(user),
                pass: String::from_str(pass),
                host: String::from_str(host),
            },
            apikey: String::new(),
            config: Config::new(),
        }
    }

    /// Installs the name-resolution configuration.
    pub fn set_config(&mut self, config: Config)
        ensures
            final(self).config == config,
            final(self).auth == old(self).auth,
            final(self).apikey == old(self).apikey,
    {
        self.config = config;
    }

    /// The authorization exchange to perform: credentials as JSON, no API
    /// key attached.
    pub fn get_api_key_request(&self) -> (r: HttpRequest)
        ensures
            r@ == spec_auth_request(*self),
    {
        let mut body = String::from_str("{\"Username\":");
        push_json_str(&mut body, self.auth.user.as_str());
        body.append(",\"Password\":");
        push_json_str(&mut body, self.auth.pass.as_str());
        body.append("}");
        let r = HttpRequest {
            method: Method::Get,
            path: String::from_str("Authorize/"),
            api_key: None,
            body: Some(body),
        };
        assert(r@ =~= spec_auth_request(*self));
        r
    }

    /// Completes the authorization exchange: on a 2xx answer the returned
    /// key is stored and every later request carries it; any other status
    /// surfaces as `Api` with the exact code and body, and a 2xx answer
    /// whose body did not parse surfaces as `Decode`.  The session is
    /// unchanged unless authentication succeeds.
    pub fn get_api_key(&mut self, status: u16, body: &str, apikey: Option<String>) -> (r:
        Result<(), VenafiError>)
        ensures
            final(self).auth == old(self).auth,
            final(self).config == old(self).config,
            !spec_status_ok(status) ==> (r matches Err(VenafiError::Api { status: c, body: b })
                && c == status && b@ == body@ && final(self).apikey == old(self).apikey),
            spec_status_ok(status) && apikey is None ==> (r matches Err(VenafiError::Decode)
                && final(self).apikey == old(self).apikey),
            spec_status_ok(status) ==> (apikey matches Some(k) ==> (r matches Ok(())
                && final(self).apikey@ == k@)),
    {
        if !status_ok(status) {
            return Err(VenafiError::Api { status, body: String::from_str(body) });
        }
        match apikey {
            None => Err(VenafiError::Decode),
            Some(k) => {
                self.apikey = k;
                Ok(())
            },
        }
    }

    /// The object-class search request for one configured folder.
    pub fn fetch_cert_metadata_request(&self, folder_dn: &str) -> (r: Result<
        HttpRequest,
        VenafiError,
    >)
        ensures
            !spec_authenticated(*self) ==> r matches Err(VenafiError::Unauthenticated),
            spec_authenticated(*self) ==> (r matches Ok(req) && req@ == spec_fooc_request(
                *self,
                folder_dn@,
            )),
    {
        if self.apikey.as_str().is_empty() {
            return Err(VenafiError::Unauthenticated);
        }
        let mut body = String::from_str("{\"Class\":\"X509 Server Certificate\",\"ObjectDN\":");
        push_json_str(&mut body, folder_dn);
        body.append(",\"Recursive\":true}");
        let r = HttpRequest {
            method: Method::Post,
            path: String::from_str("Config/FindObjectsOfClass"),
            api_key: Some(self.apikey.clone()),
            body: Some(body),
        };
        assert(r@ =~= spec_fooc_request(*self, folder_dn@));
        Ok(r)
    }

    /// Reads an object-class search answer into the `DN -> display name`
    /// association of the certificates found.
    pub fn fetch_cert_metadata(&self, status: u16, body: &str, found: Option<&FOOC>) -> (r: Result<
        Vec<DnEntry>,
        VenafiError,
    >)
        ensures
            !spec_status_ok(status) ==> (r matches Err(VenafiError::Api { status: c, body: b })
                && c == status && b@ == body@),
            spec_status_ok(status) && found is None ==> r matches Err(VenafiError::Decode),
            spec_status_ok(status) ==> (found matches Some(f) ==> (r matches Ok(m)
                && m@.len() == f.objects@.len() && (forall|i: int|
                0 <= i < m@.len() ==> (#[trigger] m@[i]).dn@ == f.objects@[i].dn@
                    && m@[i].name@ == f.objects@[i].name@))),
    {
        if !status_ok(status) {
            return Err(VenafiError::Api { status, body: String::from_str(body) });
        }
        match found {
            None => Err(VenafiError::Decode),
            Some(f) => {
                let n = f.objects.len();
                let mut m: Vec<DnEntry> = Vec::new();
                let mut i: usize = 0;
                while i < n
                    invariant
                        i <= n,
                        n == f.objects@.len(),
                        m@.len() == i,
                        forall|j: int|
                            0 <= j < i ==> (#[trigger] m@[j]).dn@ == f.objects@[j].dn@
                                && m@[j].name@ == f.objects@[j].name@,
                    decreases n - i,
                {
                    m.push(
                        DnEntry {
                            name: f.objects[i].name.clone(),
                            dn: f.objects[i].dn.clone(),
                        },
                    );
                    i += 1;
                }
                Ok(m)
            },
        }
    }

    /// The certificate retrieval request: format and chain/private-key
    /// flags, with `pwd` attached exactly when the private key is asked
    /// for.
    pub fn fetch_certificate_request(
        &self,
        dn: &str,
        fmt: &str,
        chain: bool,
        pkey: bool,
        pwd: &str,
    ) -> (r: Result<HttpRequest, VenafiError>)
        ensures
            !spec_authenticated(*self) ==> r matches Err(VenafiError::Unauthenticated),
            spec_authenticated(*self) ==> (r matches Ok(req) && req@ == spec_retrieve_request(
                *self,
                dn@,
                fmt@,
                chain,
                pkey,
                pwd@,
            )),
    {
        if self.apikey.as_str().is_empty() {
            return Err(VenafiError::Unauthenticated);
        }
        let mut body = String::from_str("{\"CertificateDN\":");
        push_json_str(&mut body, dn);
        body.append(",\"Format\":");
        push_json_str(&mut body, fmt);
        body.append(",\"IncludeChain\":");
        body.append(if chain { "true" } else { "false" });
        body.append(",\"IncludePrivateKey\":");
        body.append(if pkey { "true" } else { "false" });
        if pkey {
            body.append(",\"Password\":");
            push_json_str(&mut body, pwd);
        }
        body.append("}");
        assert(body@ =~= spec_retrieve_payload(dn@, fmt@, chain, pkey, pwd@));
        let r = HttpRequest {
            method: Method::Post,
            path: String::from_str("Certificates/Retrieve"),
            api_key: Some(self.apikey.clone()),
            body: Some(body),
        };
        assert(r@ =~= spec_retrieve_request(*self, dn@, fmt@, chain, pkey, pwd@));
        Ok(r)
    }

    /// Reads a certificate retrieval answer: decodes the base64 data into
    /// the PKCS#12 bundle, paired with the password that was generated for
    /// the request.
    pub fn fetch_certificate(
        &self,
        status: u16,
        body: &str,
        cert: Option<&RetrievedCert>,
        pwd: &str,
    ) -> (r: Result<P12Bundle, VenafiError>)
        ensures
            !spec_status_ok(status) ==> (r matches Err(VenafiError::Api { status: c, body: b })
                && c == status && b@ == body@),
            spec_status_ok(status) && cert is None ==> r matches Err(VenafiError::Decode),
            spec_status_ok(status) ==> (cert matches Some(c) ==> match b64_decoded(c.data@) {
                Some(bytes) => (r matches Ok(bundle) && bundle.p12@ == bytes && bundle.pwd@
                    == pwd@),
                None => r matches Err(VenafiError::Decode),
            }),
    {
        if !status_ok(status) {
            return Err(VenafiError::Api { status, body: String::from_str(body) });
        }
        match cert {
            None => Err(VenafiError::Decode),
            Some(c) => match decode_base64(c.data.as_str()) {
                None => Err(VenafiError::Decode),
                Some(bytes) => Ok(P12Bundle { p12: bytes, pwd: String::from_str(pwd) }),
            },
        }
    }

    /// The number of whole days from `now` until the not-after date of the
    /// retrieved certificate: negative once the date has passed, never an
    /// error for a past date.
    pub fn fetch_expiry(&self, bundle: &P12Bundle, now: i64) -> (r: Result<i64, VenafiError>)
        requires
            forall|i: int| 0 <= i < bundle.pwd@.len() ==> bundle.pwd@[i] != '\u{0}',
            -0x1000_0000_0000_0000 < now < 0x1000_0000_0000_0000,
        ensures
            p12_not_after(bundle.p12@, bundle.pwd@) is None ==> r matches Err(
                VenafiError::CertificateParse,
            ),
            p12_not_after(bundle.p12@, bundle.pwd@) matches Some(ds) ==> ({
                let exp = 86400 * (ds.0 as int) + (ds.1 as int);
                r matches Ok(d) && 86400 * d <= exp - now < 86400 * (d + 1) && (exp < now ==> d
                    < 0) && (exp >= now ==> d >= 0)
            }),
    {
        match p12_expiry(&bundle.p12, bundle.pwd.as_str()) {
            None => Err(VenafiError::CertificateParse),
            Some((d, s)) => {
                let exp: i64 = (d as i64) * 86400 + (s as i64);
                Ok(days_until(now, exp))
            },
        }
    }

    /// The subject-based certificate request.  The CA and folder names
    /// must resolve in the configuration; an unknown name fails with
    /// `ConfigResolution` before any request value exists, so no network
    /// call can be made for it.  A subject-alternative-name list is
    /// attached whenever it is non-empty — a single name is included, not
    /// dropped.
    pub fn request_certificate(&self, subj: &str, san: Vec<&str>, ca: &str, pdn: &str) -> (r:
        Result<HttpRequest, VenafiError>)
        ensures
            !spec_authenticated(*self) ==> r matches Err(VenafiError::Unauthenticated),
            spec_authenticated(*self) && spec_lookup(self.config.certauthorities@, ca@) is None
                ==> (r matches Err(VenafiError::ConfigResolution(n)) && n@ == ca@),
            spec_authenticated(*self) && spec_lookup(self.config.certauthorities@, ca@) is Some
                && spec_lookup(self.config.folders@, pdn@) is None ==> (r matches Err(
                VenafiError::ConfigResolution(n),
            ) && n@ == pdn@),
            spec_authenticated(*self) && spec_lookup(self.config.certauthorities@, ca@) is Some
                && spec_lookup(self.config.folders@, pdn@) is Some ==> (r matches Ok(req) && req@
                == spec_request_certificate_model(*self, subj@, seq_views(san@), ca@, pdn@)),
    {
        if self.apikey.as_str().is_empty() {
            return Err(VenafiError::Unauthenticated);
        }
        let cadn = match lookup(&self.config.certauthorities, ca) {
            Some(d) => d,
            None => {
                return Err(VenafiError::ConfigResolution(String::from_str(ca)));
            },
        };
        let pdn_resolved = match lookup(&self.config.folders, pdn) {
            Some(d) => d,
            None => {
                return Err(VenafiError::ConfigResolution(String::from_str(pdn)));
            },
        };
        let mut san_owned: Vec<String> = Vec::new();
        let sn = san.len();
        let mut i: usize = 0;
        while i < sn
            invariant
                i <= sn,
                sn == san@.len(),
                san_owned@.len() == i,
                forall|j: int| 0 <= j < i ==> (#[trigger] san_owned@[j])@ == san@[j]@,
            decreases sn - i,
        {
            san_owned.push(String::from_str(san[i]));
            i += 1;
        }
        let san_field: Option<Vec<String>> = if san_owned.len() >= 1 {
            Some(san_owned)
        } else {
            None
        };
        let req = CertificateRequest {
            policydn: pdn_resolved,
            cadn,
            specific: Vec::new(),
            subject: Some(String::from_str(subj)),
            san: san_field,
            objectname: None,
            csr: None,
        };
        let body = req.to_json();
        proof {
            crate::types::lemma_cert_json_as_payload(req);
            assert(req.specific@.map_values(|a: crate::types::NameAttrib| (a.name@, a.value@))
                =~= Seq::<(Seq<char>, Seq<char>)>::empty());
            match req.san {
                Some(v) => {
                    assert(v@.map_values(|s: String| s@) =~= seq_views(san@));
                },
                None => {},
            }
        }
        let r = HttpRequest {
            method: Method::Post,
            path: String::from_str("Certificates/Request"),
            api_key: Some(self.apikey.clone()),
            body: Some(body),
        };
        assert(r@ =~= spec_request_certificate_model(*self, subj@, seq_views(san@), ca@, pdn@));
        Ok(r)
    }

    /// The CSR-based certificate request: an object name and a PKCS#10
    /// request, with the CA and folder names resolved as for the
    /// subject-based request.
    pub fn request_with_csr(&self, name: &str, csr: &str, ca: &str, pdn: &str) -> (r: Result<
        HttpRequest,
        VenafiError,
    >)
        ensures
            !spec_authenticated(*self) ==> r matches Err(VenafiError::Unauthenticated),
            spec_authenticated(*self) && spec_lookup(self.config.certauthorities@, ca@) is None
                ==> (r matches Err(VenafiError::ConfigResolution(n)) && n@ == ca@),
            spec_authenticated(*self) && spec_lookup(self.config.certauthorities@, ca@) is Some
                && spec_lookup(self.config.folders@, pdn@) is None ==> (r matches Err(
                VenafiError::ConfigResolution(n),
            ) && n@ == pdn@),
            spec_authenticated(*self) && spec_lookup(self.config.certauthorities@, ca@) is Some
                && spec_lookup(self.config.folders@, pdn@) is Some ==> (r matches Ok(req) && req@
                == spec_request_with_csr_model(*self, name@, csr@, ca@, pdn@)),
    {
        if self.apikey.as_str().is_empty() {
            return Err(VenafiError::Unauthenticated);
        }
        let cadn = match lookup(&self.config.certauthorities, ca) {
            Some(d) => d,
            None => {
                return Err(VenafiError::ConfigResolution(String::from_str(ca)));
            },
        };
        let pdn_resolved = match lookup(&self.config.folders, pdn) {
            Some(d) => d,
            None => {
                return Err(VenafiError::ConfigResolution(String::from_str(pdn)));
            },
        };
        let req = CertificateRequest {
            policydn: pdn_resolved,
            cadn,
            specific: Vec::new(),
            subject: None,
            san: None,
            objectname: Some(String::from_str(name)),
            csr: Some(String::from_str(csr)),
        };
        let body = req.to_json();
        proof {
            crate::types::lemma_cert_json_as_payload(req);
            assert(req.specific@.map_values(|a: crate::types::NameAttrib| (a.name@, a.value@))
                =~= Seq::<(Seq<char>, Seq<char>)>::empty());
        }
        let r = HttpRequest {
            method: Method::Post,
            path: String::from_str("Certificates/Request"),
            api_key: Some(self.apikey.clone()),
            body: Some(body),
        };
        assert(r@ =~= spec_request_with_csr_model(*self, name@, csr@, ca@, pdn@));
        Ok(r)
    }

    /// The renewal request for an existing certificate.
    pub fn renew_certificate(&self, dn: &str) -> (r: Result<HttpRequest, VenafiError>)
        ensures
            !spec_authenticated(*self) ==> r matches Err(VenafiError::Unauthenticated),
            spec_authenticated(*self) ==> (r matches Ok(req) && req@ == spec_renew_request(
                *self,
                dn@,
            )),
    {
        if self.apikey.as_str().is_empty() {
            return Err(VenafiError::Unauthenticated);
        }
        let mut body = String::from_str("{\"CertificateDN\":");
        push_json_str(&mut body, dn);
        body.append("}");
        let r = HttpRequest {
            method: Method::Post,
            path: String::from_str("Certificates/Renew"),
            api_key: Some(self.apikey.clone()),
            body: Some(body),
        };
        assert(r@ =~= spec_renew_request(*self, dn@));
        Ok(r)
    }

    /// The revocation request for an existing certificate, with the fixed
    /// reason code and comment.
    pub fn revoke_certificate(&self, dn: &str) -> (r: Result<HttpRequest, VenafiError>)
        ensures
            !spec_authenticated(*self) ==> r matches Err(VenafiError::Unauthenticated),
            spec_authenticated(*self) ==> (r matches Ok(req) && req@ == spec_revoke_request(
                *self,
                dn@,
            )),
    {
        if self.apikey.as_str().is_empty() {
            return Err(VenafiError::Unauthenticated);
        }
        let mut body = String::from_str("{\"CertificateDN\":");
        push_json_str(&mut body, dn);
        body.append(",\"Reason\":0,\"Comments\":\"Revoked via API\"}");
        let r = HttpRequest {
            method: Method::Post,
            path: String::from_str("Certificates/Revoke"),
            api_key: Some(self.apikey.clone()),
            body: Some(body),
        };
        assert(r@ =~= spec_revoke_request(*self, dn@));
        Ok(r)
    }

    /// Reads the answer to a renewal or revocation: a 2xx status is the
    /// success marker, anything else surfaces as `Api` with the exact code
    /// and body.
    pub fn operation_outcome(&self, status: u16, body: &str) -> (r: Result<(), VenafiError>)
        ensures
            !spec_status_ok(status) ==> (r matches Err(VenafiError::Api { status: c, body: b })
                && c == status && b@ == body@),
            spec_status_ok(status) ==> r matches Ok(()),
    {
        if !status_ok(status) {
            return Err(VenafiError::Api { status, body: String::from_str(body) });
        }
        Ok(())
    }

    /// Reads a certificate-request answer: the distinguished name of the
    /// new certificate.
    pub fn certificate_dn_outcome(&self, status: u16, body: &str, dn: Option<String>) -> (r:
        Result<String, VenafiError>)
        ensures
            !spec_status_ok(status) ==> (r matches Err(VenafiError::Api { status: c, body: b })
                && c == status && b@ == body@),
            spec_status_ok(status) && dn is None ==> r matches Err(VenafiError::Decode),
            spec_status_ok(status) ==> (dn matches Some(d) ==> (r matches Ok(out) && out@
                == d@)),
    {
        if !status_ok(status) {
            return Err(VenafiError::Api { status, body: String::from_str(body) });
        }
        match dn {
            None => Err(VenafiError::Decode),
            Some(d) => Ok(d),
        }
    }

    /// The first half of a revocation check: the configuration read that
    /// asks for the certificate's vault identifier.
    pub fn is_revoked_request(&self, dn: &str) -> (r: Result<HttpRequest, VenafiError>)
        ensures
            !spec_authenticated(*self) ==> r matches Err(VenafiError::Unauthenticated),
            spec_authenticated(*self) ==> (r matches Ok(req) && req@ == spec_config_read_request(
                *self,
                dn@,
            )),
    {
        if self.apikey.as_str().is_empty() {
            return Err(VenafiError::Unauthenticated);
        }
        let mut body = String::from_str("{\"ObjectDN\":");
        push_json_str(&mut body, dn);
        body.append(",\"AttributeName\":\"Certificate Vault Id\"}");
        let r = HttpRequest {
            method: Method::Post,
            path: String::from_str("Config/Read"),
            api_key: Some(self.apikey.clone()),
            body: Some(body),
        };
        assert(r@ =~= spec_config_read_request(*self, dn@));
        Ok(r)
    }

    /// Reads the configuration-read answer: the vault identifier is the
    /// first value of the attribute.
    pub fn vault_id_outcome(&self, status: u16, body: &str, read: Option<&ConfigRead>) -> (r:
        Result<String, VenafiError>)
        ensures
            !spec_status_ok(status) ==> (r matches Err(VenafiError::Api { status: c, body: b })
                && c == status && b@ == body@),
            spec_status_ok(status) && read is None ==> r matches Err(VenafiError::Decode),
            spec_status_ok(status) ==> (read matches Some(c) ==> ({
                if c.values@.len() == 0 {
                    r matches Err(VenafiError::Decode)
                } else {
                    r matches Ok(v) && v@ == c.values@[0]@
                }
            })),
    {
        if !status_ok(status) {
            return Err(VenafiError::Api { status, body: String::from_str(body) });
        }
        match read {
            None => Err(VenafiError::Decode),
            Some(c) => {
                if c.values.len() == 0 {
                    Err(VenafiError::Decode)
                } else {
                    Ok(c.values[0].clone())
                }
            },
        }
    }

    /// The second half of a revocation check: the certificate-store
    /// retrieval by vault identifier.
    pub fn vault_request(&self, vault_id: &str) -> (r: Result<HttpRequest, VenafiError>)
        ensures
            !spec_authenticated(*self) ==> r matches Err(VenafiError::Unauthenticated),
            spec_authenticated(*self) ==> (r matches Ok(req) && req@ == spec_vault_request(
                *self,
                vault_id@,
            )),
    {
        if self.apikey.as_str().is_empty() {
            return Err(VenafiError::Unauthenticated);
        }
        let mut body = String::from_str("{\"VaultId\":");
        push_json_str(&mut body, vault_id);
        body.append("}");
        let r = HttpRequest {
            method: Method::Post,
            path: String::from_str("X509CertificateStore/Retrieve"),
            api_key: Some(self.apikey.clone()),
            body: Some(body),
        };
        assert(r@ =~= spec_vault_request(*self, vault_id@));
        Ok(r)
    }

    /// Decides revocation from the certificate-store answer: `true`
    /// exactly when the name/value list holds an entry named
    /// `Revocation Status` with a non-empty value.
    pub fn is_revoked(&self, status: u16, body: &str, store: Option<&X509CertStore>) -> (r:
        Result<bool, VenafiError>)
        ensures
            !spec_status_ok(status) ==> (r matches Err(VenafiError::Api { status: c, body: b })
                && c == status && b@ == body@),
            spec_status_ok(status) && store is None ==> r matches Err(VenafiError::Decode),
            spec_status_ok(status) ==> (store matches Some(st) ==> (r matches Ok(v) && v
                == spec_revoked(st.typednamevalues@))),
    {
        if !status_ok(status) {
            return Err(VenafiError::Api { status, body: String::from_str(body) });
        }
        match store {
            None => Err(VenafiError::Decode),
            Some(st) => Ok(revocation_status(&st.typednamevalues)),
        }
    }
}

} // verus!
