use vstd::prelude::*;

verus! {

/// JSON error envelope returned by every `/api/v1` handler.
#[derive(Debug, Clone)]
pub struct ErrorEnvelope {
    pub error: ErrorBody,
}

/// Body of the JSON error envelope.
#[derive(Debug, Clone)]
pub struct ErrorBody {
    pub code: &'static str,
    pub message: String,
}

/// Error type returned by REST handlers: HTTP status, machine-readable code
/// and human-readable message.
#[derive(Debug, Clone)]
pub struct ApiError {
    pub status: u16,
    pub code: &'static str,
    pub message: String,
}

/// `e` has the given status, code and message.
pub open spec fn api_error_is(e: ApiError, status: u16, code: Seq<char>, message: Seq<char>) -> bool {
    e.status == status && e.code@ == code && e.message@ == message
}

impl ApiError {
    /// Build a 400 `bad_request` error.
    pub fn bad_request(message: String) -> (e: ApiError)
        ensures
            api_error_is(e, 400, "bad_request"@, message@),
    {
        ApiError { status: 400, code: "bad_request", message }
    }

    /// Build a 401 `unauthorized` error.
    pub fn unauthorized(message: String) -> (e: ApiError)
        ensures
            api_error_is(e, 401, "unauthorized"@, message@),
    {
        ApiError { status: 401, code: "unauthorized", message }
    }

    /// Build a 404 `not_found` error.
    pub fn not_found(message: String) -> (e: ApiError)
        ensures
            api_error_is(e, 404, "not_found"@, message@),
    {
        ApiError { status: 404, code: "not_found", message }
    }

    /// Build a 429 `rate_limited` error.
    pub fn too_many_requests(message: String) -> (e: ApiError)
        ensures
            api_error_is(e, 429, "rate_limited"@, message@),
    {
        ApiError { status: 429, code: "rate_limited", message }
    }

    /// Build a 500 `internal_error` with the given message.
    pub fn internal_message(message: &str) -> (e: ApiError)
        ensures
            api_error_is(e, 500, "internal_error"@, message@),
    {
        ApiError { status: 500, code: "internal_error", message: message.to_owned() }
    }

    /// Build the generic 500 `internal_error` reported for backend failures.
    /// The cause is for the server log only; the client sees `"internal error"`.
    pub fn internal() -> (e: ApiError)
        ensures
            api_error_is(e, 500, "internal_error"@, "internal error"@),
    {
        ApiError { status: 500, code: "internal_error", message: "internal error".to_owned() }
    }

    /// The JSON envelope sent to the client.
    pub fn envelope(self) -> (env: ErrorEnvelope)
        ensures
            env.error.code == self.code,
            env.error.message == self.message,
    {
        ErrorEnvelope { error: ErrorBody { code: self.code, message: self.message } }
    }
}

} // verus!
