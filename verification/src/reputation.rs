//! Reputation: what an attestation must carry before it is signed.
use vstd::prelude::*;
use crate::api_error::{ApiError, ApiErrorView};
use crate::text::{decimal, decimal_string, has_prefix, push_all, str_starts_with};

verus! {

broadcast use vstd::string::group_string_axioms;

/// The body of an attestation of another agent.
pub struct AttestRequest {
    pub to: String,
    pub score: u8,
    pub comment: Option<String>,
}

/// The agent whose reputation is asked for, or the active one.
pub struct ReputationQuery {
    pub agent: Option<String>,
}

/// How many agents the leaderboard shows.
pub struct LeaderboardQuery {
    pub limit: usize,
}

/// The leaderboard's length when the query gives none.
pub fn default_limit() -> (n: usize)
    ensures
        n == 20,
{
    20
}

pub struct AttestationResponse {
    pub attester: String,
    pub target: String,
    pub score: u8,
    pub comment: String,
    pub signed: bool,
}

/// Why an attestation is refused, if it is: the target must be a DID and the
/// score at most 100.
pub open spec fn attest_refusal(to: Seq<char>, score: u8) -> Option<Seq<char>> {
    if to.len() == 0 {
        Some("target DID cannot be empty"@)
    } else if !has_prefix(to, "did:"@) {
        Some("target must be a valid DID (did:...)"@)
    } else if score > 100 {
        Some("invalid score: "@ + decimal(score as nat) + " (must be 0-100)"@)
    } else {
        None
    }
}

pub fn check_attest(req: &AttestRequest) -> (r: Result<(), ApiError>)
    ensures
        match attest_refusal(req.to@, req.score) {
            None => r is Ok,
            Some(m) => r is Err && r->Err_0@ == ApiErrorView::BadRequest(m),
        },
{
    if req.to.as_str().is_empty() {
        return Err(ApiError::BadRequest("target DID cannot be empty".to_string()));
    }
    if !str_starts_with(req.to.as_str(), "did:") {
        return Err(ApiError::BadRequest("target must be a valid DID (did:...)".to_string()));
    }
    if req.score > 100 {
        let mut m = String::new();
        push_all(&mut m, "invalid score: ");
        let d = decimal_string(req.score as u128);
        push_all(&mut m, d.as_str());
        push_all(&mut m, " (must be 0-100)");
        assert(m@ =~= "invalid score: "@ + decimal(req.score as nat) + " (must be 0-100)"@);
        return Err(ApiError::BadRequest(m));
    }
    Ok(())
}

/// The claim an attestation makes: its comment, or `general`.
pub fn attestation_claim(comment: &Option<String>) -> (c: String)
    ensures
        c@ == match comment { Some(s) => s@, None => "general"@ },
{
    match comment {
        Some(s) => s.clone(),
        None => "general".to_string(),
    }
}

} // verus!
