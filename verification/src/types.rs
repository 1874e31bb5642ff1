//! Data model: the records exchanged with the platform as JSON, the
//! configuration, and the outbound-request value handed to the transport.

use vstd::prelude::*;
use crate::json::{
    json_str, spec_join_comma, lemma_join_snoc, push_char, push_json_str,
};

verus! {

/// Credentials and target host of a session.
pub struct Auth {
    pub user: String,
    pub pass: String,
    pub host: String,
}

/// One `name -> distinguished name` association of the configuration.
pub struct DnEntry {
    pub name: String,
    pub dn: String,
}

/// Folder and certificate-authority names mapped to their distinguished
/// names, loaded once from external configuration and read-only afterwards.
pub struct Config {
    pub folders: Vec<DnEntry>,
    pub certauthorities: Vec<DnEntry>,
}

/// The first distinguished name associated with `name`, if any.
pub open spec fn spec_lookup(entries: Seq<DnEntry>, name: Seq<char>) -> Option<Seq<char>>
    decreases entries.len(),
{
    if entries.len() == 0 {
        None
    } else if entries[0].name@ == name {
        Some(entries[0].dn@)
    } else {
        spec_lookup(entries.drop_first(), name)
    }
}

/// Looks `name` up in an association list, first match wins.
pub fn lookup(entries: &Vec<DnEntry>, name: &str) -> (r: Option<String>)
    ensures
        match r {
            Some(dn) => spec_lookup(entries@, name@) == Some(dn@),
            None => spec_lookup(entries@, name@) is None,
        },
{
    let name_owned = String::from_str(name);
    let n = entries.len();
    let mut i: usize = 0;
    proof {
        assert(entries@.skip(0) =~= entries@);
    }
    while i < n
        invariant
            i <= n,
            n == entries@.len(),
            name_owned@ == name@,
            spec_lookup(entries@, name@) == spec_lookup(entries@.skip(i as int), name@),
        decreases n - i,
    {
        proof {
            assert(entries@.skip(i as int)[0] == entries@[i as int]);
            assert(entries@.skip(i as int).drop_first() =~= entries@.skip(i as int + 1));
        }
        if entries[i].name == name_owned {
            return Some(entries[i].dn.clone());
        }
        i += 1;
    }
    proof {
        assert(entries@.skip(n as int) =~= Seq::<DnEntry>::empty());
    }
    None
}

impl Config {
    /// An empty configuration: no folder and no certificate authority.
    pub fn new() -> (r: Config)
        ensures
            r.folders@.len() == 0,
            r.certauthorities@.len() == 0,
    {
        Config { folders: Vec::new(), certauthorities: Vec::new() }
    }
}

/// HTTP method of an outbound request.
#[derive(Clone, Copy, Debug, PartialEq, Eq)]
pub enum Method {
    Get,
    Post,
}

/// The ghost image of an outbound request, used by every contract.
#[verifier::ext_equal]
pub struct RequestModel {
    pub method: Method,
    pub path: Seq<char>,
    pub api_key: Option<Seq<char>>,
    pub body: Option<Seq<char>>,
}

/// An outbound request for the transport to perform: the path relative to
/// the host, the value of the `X-Venafi-Api-Key` header if one is attached,
/// and the JSON body if one is sent.
pub struct HttpRequest {
    pub method: Method,
    pub path: String,
    pub api_key: Option<String>,
    pub body: Option<String>,
}

impl View for HttpRequest {
    type V = RequestModel;

    open spec fn view(&self) -> RequestModel {
        RequestModel {
            method: self.method,
            path: self.path@,
            api_key: match self.api_key {
                Some(k) => Some(k@),
                None => None,
            },
            body: match self.body {
                Some(b) => Some(b@),
                None => None,
            },
        }
    }
}

/// A name/value attribute of an outbound payload.
pub struct NameAttrib {
    pub name: String,
    pub value: String,
}

/// What one `NameAttrib` contributes to a payload.
pub open spec fn spec_name_attrib_json(name: Seq<char>, value: Seq<char>) -> Seq<char> {
    "{\"Name\":"@ + json_str(name) + ",\"Value\":"@ + json_str(value) + "}"@
}

/// The views of an optional string.
pub open spec fn opt_view(o: Option<String>) -> Option<Seq<char>> {
    match o {
        Some(s) => Some(s@),
        None => None,
    }
}

/// What an optional string contributes to a payload: a JSON string
/// literal, or `null` when absent.
pub open spec fn spec_opt_str(o: Option<Seq<char>>) -> Seq<char> {
    match o {
        Some(s) => json_str(s),
        None => "null"@,
    }
}

/// Appends the JSON of an optional string field value.
pub fn push_opt_str(out: &mut String, o: &Option<String>)
    ensures
        final(out)@ == old(out)@ + spec_opt_str(opt_view(*o)),
{
    match o {
        Some(s) => push_json_str(out, s.as_str()),
        None => out.append("null"),
    }
}

/// One subject-alternative-name entry of the outbound request: a DNS name.
pub open spec fn spec_san_entry(name: Seq<char>) -> Seq<char> {
    "{\"TypeName\":2,\"Name\":"@ + json_str(name) + "}"@
}

/// The rendered entries of a subject-alternative-name list.
pub open spec fn spec_san_parts(names: Seq<String>) -> Seq<Seq<char>> {
    names.map_values(|s: String| spec_san_entry(s@))
}

/// Appends the JSON array of subject-alternative-name entries.
pub fn push_san_array(out: &mut String, names: &Vec<String>)
    ensures
        final(out)@ == old(out)@ + seq!['['] + spec_join_comma(spec_san_parts(names@)) + seq![']'],
{
    push_char(out, '[');
    let ghost parts = spec_san_parts(names@);
    let n = names.len();
    let mut i: usize = 0;
    proof {
        assert(parts.take(0) =~= Seq::<Seq<char>>::empty());
    }
    while i < n
        invariant
            i <= n,
            n == names@.len(),
            parts == spec_san_parts(names@),
            out@ == old(out)@ + seq!['['] + spec_join_comma(parts.take(i as int)),
        decreases n - i,
    {
        if i > 0 {
            push_char(out, ',');
        }
        let ghost before = out@;
        out.append("{\"TypeName\":2,\"Name\":");
        push_json_str(out, names[i].as_str());
        out.append("}");
        proof {
            assert(out@ =~= before + spec_san_entry(names@[i as int]@));
            assert(parts[i as int] == spec_san_entry(names@[i as int]@));
            lemma_join_snoc(parts, i as int);
            assert(out@ =~= old(out)@ + seq!['['] + spec_join_comma(parts.take(i as int + 1)));
        }
        i += 1;
    }
    proof {
        assert(parts.take(n as int) =~= parts);
    }
    push_char(out, ']');
}

/// The rendered entries of a name/value attribute list.
pub open spec fn spec_attrib_parts(attribs: Seq<NameAttrib>) -> Seq<Seq<char>> {
    attribs.map_values(|a: NameAttrib| spec_name_attrib_json(a.name@, a.value@))
}

/// Appends the JSON array of name/value attributes.
pub fn push_attrib_array(out: &mut String, attribs: &Vec<NameAttrib>)
    ensures
        final(out)@ == old(out)@ + seq!['['] + spec_join_comma(spec_attrib_parts(attribs@))
            + seq![']'],
{
    push_char(out, '[');
    let ghost parts = spec_attrib_parts(attribs@);
    let n = attribs.len();
    let mut i: usize = 0;
    proof {
        assert(parts.take(0) =~= Seq::<Seq<char>>::empty());
    }
    while i < n
        invariant
            i <= n,
            n == attribs@.len(),
            parts == spec_attrib_parts(attribs@),
            out@ == old(out)@ + seq!['['] + spec_join_comma(parts.take(i as int)),
        decreases n - i,
    {
        if i > 0 {
            push_char(out, ',');
        }
        let ghost before = out@;
        out.append("{\"Name\":");
        push_json_str(out, attribs[i].name.as_str());
        out.append(",\"Value\":");
        push_json_str(out, attribs[i].value.as_str());
        out.append("}");
        proof {
            assert(out@ =~= before + spec_name_attrib_json(attribs@[i as int].name@, attribs@[i as int].value@));
            assert(parts[i as int] == spec_name_attrib_json(attribs@[i as int].name@, attribs@[i as int].value@));
            lemma_join_snoc(parts, i as int);
            assert(out@ =~= old(out)@ + seq!['['] + spec_join_comma(parts.take(i as int + 1)));
        }
        i += 1;
    }
    proof {
        assert(parts.take(n as int) =~= parts);
    }
    push_char(out, ']');
}

/// The rendered entries of a plain string list.
pub open spec fn spec_str_parts(vals: Seq<String>) -> Seq<Seq<char>> {
    vals.map_values(|v: String| json_str(v@))
}

/// Appends the JSON array of plain strings.
pub fn push_str_array(out: &mut String, vals: &Vec<String>)
    ensures
        final(out)@ == old(out)@ + seq!['['] + spec_join_comma(spec_str_parts(vals@)) + seq![']'],
{
    push_char(out, '[');
    let ghost parts = spec_str_parts(vals@);
    let n = vals.len();
    let mut i: usize = 0;
    proof {
        assert(parts.take(0) =~= Seq::<Seq<char>>::empty());
    }
    while i < n
        invariant
            i <= n,
            n == vals@.len(),
            parts == spec_str_parts(vals@),
            out@ == old(out)@ + seq!['['] + spec_join_comma(parts.take(i as int)),
        decreases n - i,
    {
        if i > 0 {
            push_char(out, ',');
        }
        let ghost before = out@;
        push_json_str(out, vals[i].as_str());
        proof {
            assert(out@ =~= before + json_str(vals@[i as int]@));
            assert(parts[i as int] == json_str(vals@[i as int]@));
            lemma_join_snoc(parts, i as int);
            assert(out@ =~= old(out)@ + seq!['['] + spec_join_comma(parts.take(i as int + 1)));
        }
        i += 1;
    }
    proof {
        assert(parts.take(n as int) =~= parts);
    }
    push_char(out, ']');
}

/// Outbound certificate request; carries either a subject (with optional
/// subject-alternative names) or an object name with a PKCS#10 request.
pub struct CertificateRequest {
    pub policydn: String,
    pub cadn: String,
    pub specific: Vec<NameAttrib>,
    pub subject: Option<String>,
    pub san: Option<Vec<String>>,
    pub objectname: Option<String>,
    pub csr: Option<String>,
}

/// What the subject-alternative-name field contributes: the rendered
/// array, or `null` when no list is attached.
pub open spec fn spec_san_field(o: Option<Vec<String>>) -> Seq<char> {
    match o {
        Some(names) => seq!['['] + spec_join_comma(spec_san_parts(names@)) + seq![']'],
        None => "null"@,
    }
}

/// The exact JSON body of an outbound certificate request, with the field
/// names the vendor API fixes.
pub open spec fn spec_certificate_request_json(req: CertificateRequest) -> Seq<char> {
    "{\"PolicyDN\":"@ + json_str(req.policydn@)
    + ",\"CADN\":"@ + json_str(req.cadn@)
    + ",\"CASpecificAttributes\":"@ + seq!['['] + spec_join_comma(spec_attrib_parts(req.specific@)) + seq![']']
    + ",\"Subject\":"@ + spec_opt_str(opt_view(req.subject))
    + ",\"SubjectAltNames\":"@ + spec_san_field(req.san)
    + ",\"ObjectName\":"@ + spec_opt_str(opt_view(req.objectname))
    + ",\"PKCS10\":"@ + spec_opt_str(opt_view(req.csr))
    + "}"@
}

impl CertificateRequest {
    /// Serializes the request to the JSON body the platform expects.
    pub fn to_json(&self) -> (r: String)
        ensures
            r@ == spec_certificate_request_json(*self),
    {
        let mut out = String::from_str("{\"PolicyDN\":");
        push_json_str(&mut out, self.policydn.as_str());
        out.append(",\"CADN\":");
        push_json_str(&mut out, self.cadn.as_str());
        out.append(",\"CASpecificAttributes\":");
        push_attrib_array(&mut out, &self.specific);
        out.append(",\"Subject\":");
        push_opt_str(&mut out, &self.subject);
        out.append(",\"SubjectAltNames\":");
        match &self.san {
            Some(names) => push_san_array(&mut out, names),
            None => out.append("null"),
        }
        out.append(",\"ObjectName\":");
        push_opt_str(&mut out, &self.objectname);
        out.append(",\"PKCS10\":");
        push_opt_str(&mut out, &self.csr);
        out.append("}");
        assert(out@ =~= spec_certificate_request_json(*self));
        out
    }
}

/// The rendered entries of a name/value pair list given as views.
pub open spec fn spec_attrib_pairs_parts(pairs: Seq<(Seq<char>, Seq<char>)>) -> Seq<Seq<char>> {
    pairs.map_values(|p: (Seq<char>, Seq<char>)| spec_name_attrib_json(p.0, p.1))
}

/// The subject-alternative-name field rendered from views: the array, or
/// `null` when no list is attached.
pub open spec fn spec_san_names(o: Option<Seq<Seq<char>>>) -> Seq<char> {
    match o {
        Some(names) => seq!['['] + spec_join_comma(
            names.map_values(|n: Seq<char>| spec_san_entry(n)),
        ) + seq![']'],
        None => "null"@,
    }
}

/// The views of an optional string list.
pub open spec fn opt_vec_views(o: Option<Vec<String>>) -> Option<Seq<Seq<char>>> {
    match o {
        Some(v) => Some(v@.map_values(|s: String| s@)),
        None => None,
    }
}

/// The views of a borrowed string list.
pub open spec fn seq_views(ss: Seq<&str>) -> Seq<Seq<char>> {
    ss.map_values(|s: &str| s@)
}

/// The certificate-request body stated over views alone.
pub open spec fn spec_cert_payload(
    policydn: Seq<char>,
    cadn: Seq<char>,
    attribs: Seq<(Seq<char>, Seq<char>)>,
    subject: Option<Seq<char>>,
    san: Option<Seq<Seq<char>>>,
    objectname: Option<Seq<char>>,
    csr: Option<Seq<char>>,
) -> Seq<char> {
    "{\"PolicyDN\":"@ + json_str(policydn)
    + ",\"CADN\":"@ + json_str(cadn)
    + ",\"CASpecificAttributes\":"@ + seq!['['] + spec_join_comma(spec_attrib_pairs_parts(attribs)) + seq![']']
    + ",\"Subject\":"@ + spec_opt_str(subject)
    + ",\"SubjectAltNames\":"@ + spec_san_names(san)
    + ",\"ObjectName\":"@ + spec_opt_str(objectname)
    + ",\"PKCS10\":"@ + spec_opt_str(csr)
    + "}"@
}

/// The serialized certificate request is exactly the view-level payload of
/// its fields.
pub proof fn lemma_cert_json_as_payload(req: CertificateRequest)
    ensures
        spec_certificate_request_json(req) == spec_cert_payload(
            req.policydn@,
            req.cadn@,
            req.specific@.map_values(|a: NameAttrib| (a.name@, a.value@)),
            opt_view(req.subject),
            opt_vec_views(req.san),
            opt_view(req.objectname),
            opt_view(req.csr),
        ),
{
    assert(spec_attrib_parts(req.specific@) =~= spec_attrib_pairs_parts(
        req.specific@.map_values(|a: NameAttrib| (a.name@, a.value@)),
    ));
    match req.san {
        Some(v) => {
            assert(spec_san_parts(v@) =~= v@.map_values(|s: String| s@).map_values(
                |n: Seq<char>| spec_san_entry(n),
            ));
            assert(spec_san_field(req.san) == spec_san_names(opt_vec_views(req.san)));
        },
        None => {},
    }
    assert(spec_certificate_request_json(req) =~= spec_cert_payload(
        req.policydn@,
        req.cadn@,
        req.specific@.map_values(|a: NameAttrib| (a.name@, a.value@)),
        opt_view(req.subject),
        opt_vec_views(req.san),
        opt_view(req.objectname),
        opt_view(req.csr),
    ));
}

/// Outbound application-creation request.
pub struct CreateAppRequest {
    pub objectdn: String,
    pub class: String,
    pub nal: Vec<NameAttrib>,
}

/// The exact JSON body of an application-creation request.
pub open spec fn spec_create_app_json(req: CreateAppRequest) -> Seq<char> {
    "{\"ObjectDN\":"@ + json_str(req.objectdn@)
    + ",\"Class\":"@ + json_str(req.class@)
    + ",\"NameAttributeList\":"@ + seq!['['] + spec_join_comma(spec_attrib_parts(req.nal@)) + seq![']']
    + "}"@
}

impl CreateAppRequest {
    /// Serializes the request to the JSON body the platform expects.
    pub fn to_json(&self) -> (r: String)
        ensures
            r@ == spec_create_app_json(*self),
    {
        let mut out = String::from_str("{\"ObjectDN\":");
        push_json_str(&mut out, self.objectdn.as_str());
        out.append(",\"Class\":");
        push_json_str(&mut out, self.class.as_str());
        out.append(",\"NameAttributeList\":");
        push_attrib_array(&mut out, &self.nal);
        out.append("}");
        assert(out@ =~= spec_create_app_json(*self));
        out
    }
}

/// Outbound attribute-write request.
pub struct WriteDNRequest {
    pub objectdn: String,
    pub attrib: String,
    pub values: Vec<String>,
}

/// The exact JSON body of an attribute-write request.
pub open spec fn spec_write_dn_json(req: WriteDNRequest) -> Seq<char> {
    "{\"ObjectDN\":"@ + json_str(req.objectdn@)
    + ",\"AttributeName\":"@ + json_str(req.attrib@)
    + ",\"Values\":"@ + seq!['['] + spec_join_comma(spec_str_parts(req.values@)) + seq![']']
    + "}"@
}

impl WriteDNRequest {
    /// Serializes the request to the JSON body the platform expects.
    pub fn to_json(&self) -> (r: String)
        ensures
            r@ == spec_write_dn_json(*self),
    {
        let mut out = String::from_str("{\"ObjectDN\":");
        push_json_str(&mut out, self.objectdn.as_str());
        out.append(",\"AttributeName\":");
        push_json_str(&mut out, self.attrib.as_str());
        out.append(",\"Values\":");
        push_str_array(&mut out, &self.values);
        out.append("}");
        assert(out@ =~= spec_write_dn_json(*self));
        out
    }
}

/// Response to the authorization exchange.
pub struct VenafiAuth {
    pub apikey: String,
    pub validuntil: String,
}

/// One certificate of a listing.
pub struct CertificateHash {
    pub cn: String,
    pub ca: String,
    pub san: Option<Vec<String>>,
}

/// A listing of certificates.
pub struct CertificateList {
    pub kind: String,
    pub items: Vec<CertificateHash>,
}

/// One object returned by the object-class search.
pub struct ClassObject {
    pub absguid: String,
    pub dn: String,
    pub guid: String,
    pub name: String,
    pub parent: String,
    pub typename: String,
}

/// Response to the object-class search.
pub struct FOOC {
    pub objects: Vec<ClassObject>,
    pub result: i32,
}

/// Response to a certificate retrieval: base64 data, filename and format.
pub struct RetrievedCert {
    pub data: String,
    pub filename: String,
    pub format: String,
}

/// A decoded PKCS#12 blob together with the password that encrypts its
/// private key.  The password is generated client-side before the request.
pub struct P12Bundle {
    pub p12: Vec<u8>,
    pub pwd: String,
}

/// One typed name/value pair of a certificate-store record.
pub struct TypedNameValue {
    pub datatype: String,
    pub name: String,
    pub value: String,
}

/// Response to a certificate-store retrieval.
pub struct X509CertStore {
    pub result: String,
    pub certificate: String,
    pub typednamevalues: Vec<TypedNameValue>,
}

/// Response to a configuration read.
pub struct ConfigRead {
    pub objectdn: String,
    pub attribute: String,
    pub values: Vec<String>,
}

/// The configuration file's shape: folder, certificate-authority and
/// F5-specific associations.
pub struct ZerdaConfig {
    pub kind: String,
    pub folders: Vec<DnEntry>,
    pub certauthorities: Vec<DnEntry>,
    pub f5basedns: Vec<DnEntry>,
    pub f5params: Vec<DnEntry>,
}

} // verus!
