use vstd::prelude::*;

use crate::api::auth::{bearer_token, strip_bearer};
use crate::api::errors::{api_error_is, ApiError};
use crate::crypto::{hex_encode, sha256};
use crate::domain::api_key::key_hash;
use crate::text::{decimal, push_decimal, trim_str};

verus! {

broadcast use vstd::string::group_string_axioms;

/// Login burst budget: attempts per client IP before the limiter engages.
pub const LOGIN_BURST: u32 = 5;

/// Replenish rate for the login limiter, in seconds per token.
pub const LOGIN_PERIOD_SECS: u64 = 12;

/// API burst budget per key.
pub const API_BURST: u32 = 60;

/// Replenish rate for the API limiter, in milliseconds per token.
pub const API_PERIOD_MILLIS: u64 = 1_000;

/// Global per-IP burst budget. Tolerates a normal page load (HTML, a handful
/// of vendored scripts, the stylesheet) several times in quick succession.
pub const GLOBAL_BURST: u32 = 120;

/// Replenish rate for the global limiter, in milliseconds per token (10 req/s sustained).
pub const GLOBAL_PERIOD_MILLIS: u64 = 100;

/// Interval between passes that prune stale buckets from the limiter key maps, in seconds.
pub const RETAIN_INTERVAL_SECS: u64 = 60;

/// Bucket shared by requests that present no usable bearer token.
pub const SHARED_BUCKET: &'static str = "none";

/// Buckets API requests by the SHA-256 hash of the bearer token they
/// present, or the shared [`SHARED_BUCKET`] when absent.
#[derive(Debug, Clone, Copy, PartialEq, Eq, Default)]
pub struct BearerHashKeyExtractor;

/// The bucket of a request whose `Authorization` header reads `header`
/// (`None` when missing or not text).
pub open spec fn bucket(header: Option<Seq<char>>) -> Seq<char> {
    match header {
        Some(v) => match bearer_token(v) {
            Some(t) => if t.len() > 0 {
                key_hash(t)
            } else {
                SHARED_BUCKET@
            },
            None => SHARED_BUCKET@,
        },
        None => SHARED_BUCKET@,
    }
}

impl BearerHashKeyExtractor {
    /// The rate-limit key of a request: lowercase hex SHA-256 of the trimmed
    /// bearer token, or `"none"`.
    pub fn extract(&self, header: Option<&str>) -> (k: String)
        ensures
            k@ == bucket(
                match header {
                    Some(v) => Some(v@),
                    None => None,
                },
            ),
    {
        let v = match header {
            Some(v) => v,
            None => return SHARED_BUCKET.to_owned(),
        };
        let rest = match strip_bearer(v) {
            Some(r) => r,
            None => return SHARED_BUCKET.to_owned(),
        };
        let token = trim_str(rest.as_str());
        if token.as_str().is_empty() {
            return SHARED_BUCKET.to_owned();
        }
        let digest = sha256(token.as_str().as_bytes());
        hex_encode(digest.as_slice())
    }
}

/// A key made of URL-safe base64 characters, presented as `Bearer <key>`,
/// is rate limited in the bucket named by the hash stored for that key.
pub proof fn presented_key_bucket_is_stored_hash(key: Seq<char>)
    requires
        key.len() > 0,
        forall|i: int| 0 <= i < key.len() ==> crate::crypto::is_url_safe_base64_char(#[trigger] key[i]),
    ensures
        bucket(Some("Bearer "@ + key)) == key_hash(key),
{
    crate::api::auth::presented_key_is_extracted(key);
}

/// A refusal from a rate limiter.
#[derive(Debug, Clone)]
pub enum RateLimitError {
    /// The quota is spent; retry after `wait_time` seconds.
    TooManyRequests { wait_time: u64 },
    /// The limiter could not derive a key for the request.
    UnableToExtractKey,
    /// Any other refusal, with its status code and optional message.
    Other { code: u16, msg: Option<String> },
}

/// A plain-text response: status, body and optional `Retry-After` value.
#[derive(Debug, Clone)]
pub struct PlainResponse {
    pub status: u16,
    pub body: String,
    pub retry_after: Option<String>,
}

/// The `Retry-After` value for a wait of `secs` seconds.
fn retry_after(secs: u64) -> (r: String)
    ensures
        r@ == decimal(secs as nat),
{
    let mut r = String::new();
    push_decimal(&mut r, secs);
    r
}

/// Render a rate-limit refusal for the HTML pages: 429 with `Retry-After`
/// when the quota is spent, 500 when no key could be derived.
pub fn html_error(error: &RateLimitError) -> (r: PlainResponse)
    ensures
        error matches RateLimitError::TooManyRequests { wait_time } ==> {
            &&& r.status == 429
            &&& r.body@ == "Too many requests. Please try again later."@
            &&& r.retry_after matches Some(v) && v@ == decimal(wait_time as nat)
        },
        error matches RateLimitError::UnableToExtractKey ==> {
            &&& r.status == 500
            &&& r.body@ == "rate-limit key extraction failed"@
            &&& r.retry_after is None
        },
        error matches RateLimitError::Other { code, msg } ==> {
            &&& r.status == code
            &&& r.body@ == match msg {
                Some(m) => m@,
                None => "rate-limit error"@,
            }
            &&& r.retry_after is None
        },
{
    match error {
        RateLimitError::TooManyRequests { wait_time } => PlainResponse {
            status: 429,
            body: "Too many requests. Please try again later.".to_owned(),
            retry_after: Some(retry_after(*wait_time)),
        },
        RateLimitError::UnableToExtractKey => PlainResponse {
            status: 500,
            body: "rate-limit key extraction failed".to_owned(),
            retry_after: None,
        },
        RateLimitError::Other { code, msg } => PlainResponse {
            status: *code,
            body: match msg {
                Some(m) => m.clone(),
                None => "rate-limit error".to_owned(),
            },
            retry_after: None,
        },
    }
}

/// Render a rate-limit refusal as the REST API's JSON error, with the
/// `Retry-After` value when the quota is spent.
pub fn api_error(error: &RateLimitError) -> (r: (ApiError, Option<String>))
    ensures
        error matches RateLimitError::TooManyRequests { wait_time } ==> {
            &&& api_error_is(r.0, 429, "rate_limited"@, "rate limit exceeded"@)
            &&& r.1 matches Some(v) && v@ == decimal(wait_time as nat)
        },
        error matches RateLimitError::UnableToExtractKey ==> {
            &&& api_error_is(r.0, 500, "internal_error"@, "rate-limit key extraction failed"@)
            &&& r.1 is None
        },
        error matches RateLimitError::Other { msg, .. } ==> {
            &&& api_error_is(
                r.0,
                500,
                "internal_error"@,
                match msg {
                    Some(m) => m@,
                    None => "rate-limit error"@,
                },
            )
            &&& r.1 is None
        },
{
    match error {
        RateLimitError::TooManyRequests { wait_time } => (
            ApiError::too_many_requests("rate limit exceeded".to_owned()),
            Some(retry_after(*wait_time)),
        ),
        RateLimitError::UnableToExtractKey => (
            ApiError::internal_message("rate-limit key extraction failed"),
            None,
        ),
        RateLimitError::Other { msg, .. } => {
            let e = match msg {
                Some(m) => ApiError::internal_message(m.as_str()),
                None => ApiError::internal_message("rate-limit error"),
            };
            (e, None)
        },
    }
}

} // verus!
