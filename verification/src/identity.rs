//! Agent identities: what creating one over the HTTP API accepts, and what
//! on-chain registration needs to be configured.
use vstd::prelude::*;
use crate::api_error::{ApiError, ApiErrorView};
use crate::text::{concat, push_all};

verus! {

broadcast use vstd::string::group_string_axioms;

/// The body of a request that creates an identity.
pub struct CreateIdentityRequest {
    pub name: String,
    pub method: String,
}

/// The DID method used when the request names none.
pub fn default_method() -> (s: String)
    ensures
        s@ == "key"@,
{
    "key".to_string()
}

pub struct IdentityResponse {
    pub did: String,
    pub method: String,
    pub name: String,
    pub ethereum: String,
    pub peer_id: String,
}

pub struct IdentityListItem {
    pub did: String,
    pub status: String,
}

pub struct OnChainRegistrationResponse {
    pub tx_hash: String,
    pub block_number: u64,
    pub did_hash: String,
}

/// Why an identity request is refused, if it is: it needs a name and one of
/// the methods `key` and `neunode`.
pub open spec fn identity_refusal(name: Seq<char>, method: Seq<char>) -> Option<Seq<char>> {
    if name.len() == 0 {
        Some("name cannot be empty"@)
    } else if method != "key"@ && method != "neunode"@ {
        Some("unsupported DID method: '"@ + method + "'. Use 'key' or 'neunode'."@)
    } else {
        None
    }
}

pub fn check_create_identity(req: &CreateIdentityRequest) -> (r: Result<(), ApiError>)
    ensures
        match identity_refusal(req.name@, req.method@) {
            None => r is Ok,
            Some(m) => r is Err && r->Err_0@ == ApiErrorView::BadRequest(m),
        },
{
    if req.name.as_str().is_empty() {
        return Err(ApiError::BadRequest("name cannot be empty".to_string()));
    }
    let m = req.method.as_str();
    if !(crate::text::str_eq(m, "key") || crate::text::str_eq(m, "neunode")) {
        let mut msg = concat("unsupported DID method: '", m);
        push_all(&mut msg, "'. Use 'key' or 'neunode'.");
        return Err(ApiError::BadRequest(msg));
    }
    Ok(())
}

/// The contract settings on-chain registration needs: the RPC endpoint, then
/// the identity contract's address.
pub fn onchain_settings(rpc_url: &Option<String>, contract: &Option<String>) -> (r: Result<(String, String), ApiError>)
    ensures
        rpc_url is None ==> r is Err && r->Err_0@ == ApiErrorView::BadRequest(
            "on-chain registration not configured — set contracts.eth_rpc_url"@,
        ),
        rpc_url is Some && contract is None ==> r is Err && r->Err_0@ == ApiErrorView::BadRequest(
            "on-chain registration not configured — set contracts.identity_contract_address"@,
        ),
        rpc_url is Some && contract is Some ==> r is Ok && r->Ok_0.0@ == rpc_url->Some_0@ && r->Ok_0.1@
            == contract->Some_0@,
{
    let url = match rpc_url {
        Some(u) => u.clone(),
        None => {
            return Err(ApiError::BadRequest(
                "on-chain registration not configured — set contracts.eth_rpc_url".to_string(),
            ));
        },
    };
    let addr = match contract {
        Some(a) => a.clone(),
        None => {
            return Err(ApiError::BadRequest(
                "on-chain registration not configured — set contracts.identity_contract_address".to_string(),
            ));
        },
    };
    Ok((url, addr))
}

/// The command line's check of a DID method: only `key` and `neunode` are
/// supported.
pub fn check_cli_method(method: &str) -> (r: Result<(), String>)
    ensures
        (method@ == "key"@ || method@ == "neunode"@) ==> r is Ok,
        !(method@ == "key"@ || method@ == "neunode"@) ==> r is Err && r->Err_0@
            == "unsupported DID method: "@ + method@ + ". Use 'key' or 'neunode'."@,
{
    if crate::text::str_eq(method, "key") || crate::text::str_eq(method, "neunode") {
        Ok(())
    } else {
        let mut msg = concat("unsupported DID method: ", method);
        push_all(&mut msg, ". Use 'key' or 'neunode'.");
        Err(msg)
    }
}

/// The capabilities an agent card of a new identity declares: `inference`
/// and `training` for a `neunode` identity, none otherwise.
pub fn card_capabilities(method: &str) -> (caps: Vec<String>)
    ensures
        method@ == "neunode"@ ==> crate::text::views(caps@) == seq!["inference"@, "training"@],
        method@ != "neunode"@ ==> caps@.len() == 0,
{
    let mut caps: Vec<String> = Vec::new();
    if crate::text::str_eq(method, "neunode") {
        caps.push("inference".to_string());
        caps.push("training".to_string());
        assert(crate::text::views(caps@) =~= seq!["inference"@, "training"@]);
    }
    caps
}

} // verus!
