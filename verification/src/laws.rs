//! Library-wide laws, each proved from the contracts the modules state.

use vstd::prelude::*;
use crate::api::{
    spec_config_read_request, spec_fooc_request, spec_renew_request,
    spec_request_certificate_model, spec_request_with_csr_model, spec_retrieve_request,
    spec_revoke_request, spec_vault_request, VenafiAPI,
};
use crate::json::{spec_join_comma, spec_join_rest};
use crate::types::{spec_san_entry, spec_san_names};

verus! {

/// Law: every operation's outbound request attaches the session's stored
/// API key.  Together with `get_api_key`, which stores the key the
/// authorization exchange returned, this says that once `authenticate`
/// succeeds every subsequent request header carries that key.
pub proof fn lemma_api_key_attached(
    api: VenafiAPI,
    dn: Seq<char>,
    fmt: Seq<char>,
    chain: bool,
    pkey: bool,
    pwd: Seq<char>,
    subj: Seq<char>,
    san: Seq<Seq<char>>,
    ca: Seq<char>,
    pdn: Seq<char>,
    name: Seq<char>,
    csr: Seq<char>,
    vault_id: Seq<char>,
)
    ensures
        spec_fooc_request(api, dn).api_key == Some(api.apikey@),
        spec_retrieve_request(api, dn, fmt, chain, pkey, pwd).api_key == Some(api.apikey@),
        spec_request_certificate_model(api, subj, san, ca, pdn).api_key == Some(api.apikey@),
        spec_request_with_csr_model(api, name, csr, ca, pdn).api_key == Some(api.apikey@),
        spec_renew_request(api, dn).api_key == Some(api.apikey@),
        spec_revoke_request(api, dn).api_key == Some(api.apikey@),
        spec_config_read_request(api, dn).api_key == Some(api.apikey@),
        spec_vault_request(api, vault_id).api_key == Some(api.apikey@),
{
}

/// Law: a subject-alternative-name list of a single name is included in
/// the outbound payload as a one-element array, and is not the `null` an
/// absent list produces.
pub proof fn lemma_single_san_included(name: Seq<char>)
    ensures
        spec_san_names(Some(seq![name])) == seq!['['] + spec_san_entry(name) + seq![']'],
        spec_san_names(Some(seq![name])) != spec_san_names(None),
{
    let names = seq![name];
    let parts = names.map_values(|n: Seq<char>| spec_san_entry(n));
    assert(parts =~= seq![spec_san_entry(name)]);
    assert(parts.drop_first() =~= Seq::<Seq<char>>::empty());
    assert(spec_join_rest(Seq::<Seq<char>>::empty()) == Seq::<char>::empty());
    assert(spec_join_comma(parts) =~= spec_san_entry(name));
    reveal_strlit("null");
    reveal_strlit("{\"TypeName\":2,\"Name\":");
    reveal_strlit("}");
    assert(spec_san_entry(name).len() >= 22);
    assert(spec_san_names(Some(names)).len() >= 24);
    assert(spec_san_names(None).len() == 4);
}

} // verus!
