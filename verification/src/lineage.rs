//! Model lineage: content ids of models, and how one registered model is shown.
use vstd::prelude::*;
use crate::api_error::{ApiError, ApiErrorView};
use crate::output::{Output, OutputView, outputs_view, pairs_view, result_view};
use crate::text::{
    bytes_to_hex, chars_of, concat, decimal, decimal_string, has_prefix, hex_of, is_hex_digit, join,
    join_strings, push_all, str_starts_with, string_from, views,
};

verus! {

broadcast use vstd::string::group_string_axioms;

/// Why a content id is malformed, if it is. A content id is `sha256:`
/// followed by at least one hexadecimal digit.
pub open spec fn cid_problem(cid: Seq<char>) -> Option<Seq<char>> {
    if cid.len() == 0 {
        Some("CID cannot be empty"@)
    } else if !has_prefix(cid, "sha256:"@) {
        Some("CID must start with 'sha256:' (got '"@ + cid + "')"@)
    } else if cid.len() == 7 {
        Some("CID hex portion cannot be empty"@)
    } else if !(forall|i: int| 7 <= i < cid.len() ==> is_hex_digit(#[trigger] cid[i])) {
        Some("CID hex portion contains non-hex characters"@)
    } else {
        None
    }
}

/// Checks that `cid` is a well-formed content id.
pub fn validate_cid(cid: &str) -> (r: Result<(), String>)
    ensures
        match cid_problem(cid@) {
            None => r is Ok,
            Some(m) => r is Err && r->Err_0@ == m,
        },
{
    proof {
        reveal_strlit("sha256:");
    }
    if cid.is_empty() {
        return Err("CID cannot be empty".to_string());
    }
    if !str_starts_with(cid, "sha256:") {
        let mut m = concat("CID must start with 'sha256:' (got '", cid);
        push_all(&mut m, "')");
        return Err(m);
    }
    let cs = chars_of(cid);
    if cs.len() == 7 {
        return Err("CID hex portion cannot be empty".to_string());
    }
    let mut i: usize = 7;
    while i < cs.len()
        invariant
            7 <= i <= cs.len(),
            cs@ == cid@,
            cid@.len() > 7,
            has_prefix(cid@, "sha256:"@),
            forall|k: int| 7 <= k < i ==> is_hex_digit(#[trigger] cid@[k]),
        decreases cs.len() - i,
    {
        let c = cs[i];
        if !(('0' <= c && c <= '9') || ('a' <= c && c <= 'f') || ('A' <= c && c <= 'F')) {
            assert(!is_hex_digit(cid@[i as int]));
            return Err("CID hex portion contains non-hex characters".to_string());
        }
        i = i + 1;
    }
    Ok(())
}

/// A registered model as the lineage store holds it, with its contribution
/// already written as its label.
pub struct ModelDetails {
    pub cid: String,
    pub parent_cids: Vec<String>,
    /// The contribution, as its label reads (for example `pre_training`).
    pub contribution: String,
    pub contributor_did: String,
    pub created_at: u64,
    pub signature: Vec<u8>,
    pub dataset_hash: Option<String>,
    pub base_model_hash: Option<String>,
    /// The training duration, as its number is written, if recorded.
    pub training_duration: Option<String>,
}

/// The parents of a model as they are shown.
pub open spec fn parents_text(parents: Seq<Seq<char>>) -> Seq<char> {
    if parents.len() == 0 { "(base model)"@ } else { join(parents, ", "@) }
}

/// A signature as it is shown: its hex digits, cut to the first 16 with
/// `...` when longer.
pub open spec fn signature_text(sig: Seq<u8>) -> Seq<char> {
    let h = hex_of(sig);
    if h.len() > 16 { h.take(16) + "..."@ } else { h }
}

pub open spec fn or_empty(o: Option<String>) -> Seq<char> {
    match o {
        Some(s) => s@,
        None => Seq::empty(),
    }
}

/// The labelled fields shown for a model.
pub open spec fn model_pairs(m: ModelDetails) -> Seq<(Seq<char>, Seq<char>)> {
    seq![
        ("CID"@, m.cid@),
        ("Parents"@, parents_text(views(m.parent_cids@))),
        ("Contribution"@, m.contribution@),
        ("Contributor"@, m.contributor_did@),
        ("Created At"@, decimal(m.created_at as nat)),
        ("Signature"@, signature_text(m.signature@)),
        ("Dataset Hash"@, or_empty(m.dataset_hash)),
        ("Base Model"@, or_empty(m.base_model_hash)),
        ("Training Duration"@, match m.training_duration { Some(d) => d@ + "s"@, None => Seq::empty() }),
    ]
}

/// What showing model `cid` gives, where `found` is what the store holds under it.
pub open spec fn show_model_result(cid: Seq<char>, found: Option<ModelDetails>) -> Result<Seq<OutputView>, Seq<char>> {
    match cid_problem(cid) {
        Some(m) => Err(m),
        None => match found {
            None => Err("model '"@ + cid + "' not found"@),
            Some(m) => Ok(seq![OutputView::Pairs(model_pairs(m))]),
        },
    }
}

fn or_empty_string(o: &Option<String>) -> (s: String)
    ensures
        s@ == or_empty(*o),
{
    match o {
        Some(x) => x.clone(),
        None => String::new(),
    }
}

fn signature_string(sig: &Vec<u8>) -> (s: String)
    ensures
        s@ == signature_text(sig@),
{
    let h = bytes_to_hex(sig.as_slice());
    let cs = chars_of(h.as_str());
    if cs.len() > 16 {
        let mut t: Vec<char> = Vec::new();
        let mut i: usize = 0;
        while i < 16
            invariant
                i <= 16,
                cs.len() > 16,
                t@ == cs@.take(i as int),
            decreases 16 - i,
        {
            t.push(cs[i]);
            assert(cs@.take(i as int + 1) =~= cs@.take(i as int).push(cs@[i as int]));
            i = i + 1;
        }
        let mut s = string_from(t.as_slice());
        push_all(&mut s, "...");
        s
    } else {
        h
    }
}

/// Shows model `cid`; `found` is what the lineage store holds under that id.
pub fn show_model(cid: &str, found: Option<ModelDetails>) -> (r: Result<Vec<Output>, String>)
    ensures
        result_view(r) == show_model_result(cid@, found),
{
    match validate_cid(cid) {
        Err(e) => return Err(e),
        Ok(()) => {},
    }
    let m = match found {
        None => {
            let mut e = concat("model '", cid);
            push_all(&mut e, "' not found");
            return Err(e);
        },
        Some(m) => m,
    };
    let parents = if m.parent_cids.len() == 0 {
        "(base model)".to_string()
    } else {
        join_strings(&m.parent_cids, ", ")
    };
    let duration = match &m.training_duration {
        Some(d) => concat(d.as_str(), "s"),
        None => String::new(),
    };
    let mut p: Vec<(String, String)> = Vec::new();
    p.push(("CID".to_string(), m.cid.clone()));
    p.push(("Parents".to_string(), parents));
    p.push(("Contribution".to_string(), m.contribution.clone()));
    p.push(("Contributor".to_string(), m.contributor_did.clone()));
    p.push(("Created At".to_string(), decimal_string(m.created_at as u128)));
    p.push(("Signature".to_string(), signature_string(&m.signature)));
    p.push(("Dataset Hash".to_string(), or_empty_string(&m.dataset_hash)));
    p.push(("Base Model".to_string(), or_empty_string(&m.base_model_hash)));
    p.push(("Training Duration".to_string(), duration));
    let mut out: Vec<Output> = Vec::new();
    out.push(Output::Pairs(p));
    proof {
        assert(pairs_view(p@) =~= model_pairs(m));
        assert(outputs_view(out@) =~= seq![OutputView::Pairs(model_pairs(m))]);
    }
    Ok(out)
}

/// The contribution type a registration names when it names none.
pub fn default_contribution() -> (s: String)
    ensures
        s@ == "pre_training"@,
{
    "pre_training".to_string()
}

pub struct RoyaltiesRequest {
    pub amount: u32,
}

pub struct HashRequest {
    pub file: String,
}

pub struct VerifyRequest {
    pub cid: String,
    pub signature: String,
}

pub struct LineageDetailResponse {
    pub cid: String,
    pub parent_cids: Vec<String>,
    pub contribution_type: String,
    pub contributor_did: String,
    pub created_at: u64,
    pub signature_length: usize,
    pub dataset_hash: String,
    pub base_model_hash: String,
    pub training_duration_secs: Option<String>,
}

pub struct ModelSummary {
    pub cid: String,
    pub contribution_type: String,
    pub contributor_did: String,
    pub created_at: u64,
}

pub struct DepthResponse {
    pub cid: String,
    pub lineage_depth: u32,
}

pub struct HashResponse {
    pub file: String,
    pub hash: String,
    pub method: String,
    pub size_bytes: usize,
}

pub struct VerifyResponse {
    pub cid: String,
    pub signature_valid: bool,
    pub fields_valid: bool,
    pub verified: bool,
    pub signature_length: usize,
    pub contributor_did: String,
}

pub struct RegisterLineageResponse {
    pub cid: String,
    pub parent_cids: Vec<String>,
    pub contribution_type: String,
    pub contributor_did: String,
    pub created_at: u64,
}


/// The HTTP API's check of a content id: the same rules, refused as a bad request.
pub fn validate_cid_api(cid: &str) -> (r: Result<(), ApiError>)
    ensures
        match cid_problem(cid@) {
            None => r is Ok,
            Some(m) => r is Err && r->Err_0@ == ApiErrorView::BadRequest(m),
        },
{
    match validate_cid(cid) {
        Ok(()) => Ok(()),
        Err(m) => Err(ApiError::BadRequest(m)),
    }
}

/// A lineage node may only be signed by the keyring of its contributor: the
/// keyring's DID, the expected DID and the node's contributor must agree.
pub fn check_signer(keyring_did: &str, expected_did: &str, contributor_did: &str) -> (r: Result<(), String>)
    ensures
        (keyring_did@ == expected_did@ && contributor_did@ == expected_did@) ==> r is Ok,
        !(keyring_did@ == expected_did@ && contributor_did@ == expected_did@) ==> r is Err && r->Err_0@
            == "active keyring does not control lineage contributor DID"@,
{
    if !crate::text::str_eq(keyring_did, expected_did) || !crate::text::str_eq(contributor_did, expected_did) {
        Err("active keyring does not control lineage contributor DID".to_string())
    } else {
        Ok(())
    }
}

/// Whether `s` ends with `t`.
pub open spec fn has_suffix(s: Seq<char>, t: Seq<char>) -> bool {
    t.len() <= s.len() && s.subrange(s.len() - t.len(), s.len() as int) == t
}

fn ends_with(s: &str, t: &str) -> (b: bool)
    ensures
        b == has_suffix(s@, t@),
{
    let a = chars_of(s);
    let b = chars_of(t);
    if b.len() > a.len() {
        return false;
    }
    let off = a.len() - b.len();
    let mut i: usize = 0;
    while i < b.len()
        invariant
            i <= b.len(),
            off + b.len() == a.len(),
            a@ == s@,
            b@ == t@,
            forall|k: int| 0 <= k < i ==> a@[off + k] == b@[k],
        decreases b.len() - i,
    {
        if a[off + i] != b[i] {
            assert(s@.subrange(off as int, s@.len() as int)[i as int] != t@[i as int]);
            return false;
        }
        i = i + 1;
    }
    assert(s@.subrange(off as int, s@.len() as int) =~= t@);
    true
}

/// How a file's content hash is computed: model weights in the
/// `.safetensors` format are hashed by their tensors, anything else by its bytes.
pub fn hash_method(file: &str) -> (m: &'static str)
    ensures
        has_suffix(file@, ".safetensors"@) ==> m@ == "safetensors"@,
        !has_suffix(file@, ".safetensors"@) ==> m@ == "sha256"@,
{
    if ends_with(file, ".safetensors") { "safetensors" } else { "sha256" }
}

/// A hash request needs a file path.
pub fn check_hash_request(req: &HashRequest) -> (r: Result<(), ApiError>)
    ensures
        req.file@.len() == 0 ==> r is Err && r->Err_0@ == ApiErrorView::BadRequest("file path cannot be empty"@),
        req.file@.len() > 0 ==> r is Ok,
{
    if req.file.as_str().is_empty() {
        Err(ApiError::BadRequest("file path cannot be empty".to_string()))
    } else {
        Ok(())
    }
}

} // verus!
