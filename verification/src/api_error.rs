use vstd::prelude::*;

verus! {

/// Errors returned by the HTTP API handlers.
#[derive(Debug)]
pub enum ApiError {
    NotFound(String),
    BadRequest(String),
    NoIdentity,
    MeshNotRunning,
    Internal(String),
}

/// The mathematical content of an [`ApiError`].
pub enum ApiErrorView {
    NotFound(Seq<char>),
    BadRequest(Seq<char>),
    NoIdentity,
    MeshNotRunning,
    Internal(Seq<char>),
}

impl View for ApiError {
    type V = ApiErrorView;

    open spec fn view(&self) -> ApiErrorView {
        match self {
            ApiError::NotFound(m) => ApiErrorView::NotFound(m@),
            ApiError::BadRequest(m) => ApiErrorView::BadRequest(m@),
            ApiError::NoIdentity => ApiErrorView::NoIdentity,
            ApiError::MeshNotRunning => ApiErrorView::MeshNotRunning,
            ApiError::Internal(m) => ApiErrorView::Internal(m@),
        }
    }
}

impl ApiError {
    /// The HTTP status code of this error.
    pub fn status_code(&self) -> (code: u16)
        ensures
            code == match self {
                ApiError::NotFound(_) => 404u16,
                ApiError::BadRequest(_) => 400u16,
                ApiError::NoIdentity => 401u16,
                ApiError::MeshNotRunning => 503u16,
                ApiError::Internal(_) => 500u16,
            },
    {
        match self {
            ApiError::NotFound(_) => 404,
            ApiError::BadRequest(_) => 400,
            ApiError::NoIdentity => 401,
            ApiError::MeshNotRunning => 503,
            ApiError::Internal(_) => 500,
        }
    }
}


/// The machine-readable code of an API error.
pub open spec fn error_code_of(e: ApiError) -> Seq<char> {
    match e {
        ApiError::NotFound(_) => "NOT_FOUND"@,
        ApiError::BadRequest(_) => "BAD_REQUEST"@,
        ApiError::NoIdentity => "NO_IDENTITY"@,
        ApiError::MeshNotRunning => "MESH_NOT_RUNNING"@,
        ApiError::Internal(_) => "INTERNAL_ERROR"@,
    }
}

/// The human-readable message of an API error.
pub open spec fn message_of(e: ApiError) -> Seq<char> {
    match e {
        ApiError::NotFound(m) => m@,
        ApiError::BadRequest(m) => m@,
        ApiError::NoIdentity => "no active identity — run `agnetd identity create`"@,
        ApiError::MeshNotRunning => "mesh not running — run `agnetd mesh start` first"@,
        ApiError::Internal(m) => m@,
    }
}

impl ApiError {
    pub fn error_code(&self) -> (code: &'static str)
        ensures
            code@ == error_code_of(*self),
    {
        match self {
            ApiError::NotFound(_) => "NOT_FOUND",
            ApiError::BadRequest(_) => "BAD_REQUEST",
            ApiError::NoIdentity => "NO_IDENTITY",
            ApiError::MeshNotRunning => "MESH_NOT_RUNNING",
            ApiError::Internal(_) => "INTERNAL_ERROR",
        }
    }

    pub fn message(&self) -> (m: String)
        ensures
            m@ == message_of(*self),
    {
        match self {
            ApiError::NotFound(msg) => msg.clone(),
            ApiError::BadRequest(msg) => msg.clone(),
            ApiError::NoIdentity => "no active identity — run `agnetd identity create`".to_string(),
            ApiError::MeshNotRunning => "mesh not running — run `agnetd mesh start` first".to_string(),
            ApiError::Internal(msg) => msg.clone(),
        }
    }
}

} // verus!
