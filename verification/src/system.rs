//! Small HTTP API answers: the health report, plain acknowledgements, the
//! audit log's paging, and configuration writes.
use vstd::prelude::*;
use crate::api_error::{ApiError, ApiErrorView};
use crate::text::{concat, push_all};

verus! {

broadcast use vstd::string::group_string_axioms;

/// The health report of the API.
pub struct HealthResponse {
    pub status: String,
    pub version: String,
    pub uptime_hint: String,
}

/// The health report for a service of this version.
pub fn health(version: &str) -> (r: HealthResponse)
    ensures
        r.status@ == "ok"@,
        r.version@ == version@,
        r.uptime_hint@ == "see /api/v1/mesh/status"@,
{
    HealthResponse {
        status: "ok".to_string(),
        version: version.to_string(),
        uptime_hint: "see /api/v1/mesh/status".to_string(),
    }
}

/// A plain acknowledgement.
pub struct Ack {
    pub message: String,
}

pub fn ack(msg: &str) -> (a: Ack)
    ensures
        a.message@ == msg@,
{
    Ack { message: msg.to_string() }
}

/// A page request of the audit log: entries after sequence `after`.
pub struct AuditQuery {
    pub after: u64,
    pub limit: Option<usize>,
}

/// The result of checking the audit chain.
pub struct AuditVerification {
    pub valid: bool,
}

/// Audit pages hold 100 entries unless asked otherwise, and never more than 1000.
pub const DEFAULT_AUDIT_LIMIT: usize = 100;

pub const MAX_AUDIT_LIMIT: usize = 1000;

/// The page size an audit query asks for, or why it is refused.
pub fn audit_limit(q: &AuditQuery) -> (r: Result<usize, ApiError>)
    ensures
        ({
            let n: int = match q.limit { Some(n) => n as int, None => 100 };
            &&& (1 <= n <= 1000) ==> r == Ok::<usize, ApiError>(n as usize)
            &&& !(1 <= n <= 1000) ==> r is Err && r->Err_0@ == ApiErrorView::BadRequest(
                "limit must be between 1 and 1000"@,
            )
        }),
{
    let limit = match q.limit {
        Some(n) => n,
        None => DEFAULT_AUDIT_LIMIT,
    };
    if limit == 0 || limit > MAX_AUDIT_LIMIT {
        Err(ApiError::BadRequest("limit must be between 1 and 1000".to_string()))
    } else {
        Ok(limit)
    }
}

/// Where the next audit page starts: after the last entry of this page, if
/// there is one and its successor exists.
pub fn next_audit_sequence(last: Option<u64>) -> (r: Option<u64>)
    ensures
        match last {
            None => r is None,
            Some(s) => if s < u64::MAX { r == Some((s + 1) as u64) } else { r is None },
        },
{
    match last {
        None => None,
        Some(s) => s.checked_add(1),
    }
}

/// The body of a configuration write.
pub struct SetConfigRequest {
    pub key: String,
    pub value: String,
}

/// Where the configuration file is.
pub struct ConfigPathResponse {
    pub path: String,
}

/// The acknowledgement of a configuration write, or why it is refused: the
/// key must be given.
pub fn set_config_ack(req: &SetConfigRequest) -> (r: Result<Ack, ApiError>)
    ensures
        req.key@.len() == 0 ==> r is Err && r->Err_0@ == ApiErrorView::BadRequest("key cannot be empty"@),
        req.key@.len() > 0 ==> r is Ok && r->Ok_0.message@ == "Set "@ + req.key@ + " = "@ + req.value@,
{
    if req.key.as_str().is_empty() {
        return Err(ApiError::BadRequest("key cannot be empty".to_string()));
    }
    let mut m = concat("Set ", req.key.as_str());
    push_all(&mut m, " = ");
    push_all(&mut m, req.value.as_str());
    Ok(Ack { message: m })
}

} // verus!
