use vstd::prelude::*;

use crate::api::errors::{api_error_is, ApiError};
use crate::domain::api_key::{expired, ApiKey};
use crate::text::{chars_of, string_from_range, trim, trim_str};

verus! {

broadcast use vstd::string::group_string_axioms;

/// Identity stamped onto authenticated requests.
#[derive(Debug, Clone, Copy)]
pub struct ApiCaller {
    pub key_id: i64,
}

/// The `Authorization` header of a request, as far as it can be read as text.
#[derive(Debug, Clone)]
pub enum AuthorizationHeader {
    /// No such header.
    Missing,
    /// The header holds bytes that are not visible ASCII.
    Malformed,
    /// The header's text.
    Text(String),
}

/// The token of a `Bearer` credential: the text after `"Bearer "`, trimmed;
/// `None` when the scheme differs.
pub open spec fn bearer_token(value: Seq<char>) -> Option<Seq<char>> {
    if "Bearer "@.len() <= value.len() && value.subrange(0, 7) == "Bearer "@ {
        Some(trim(value.subrange(7, value.len() as int)))
    } else {
        None
    }
}

/// The text after `"Bearer "`, if `value` starts with it.
pub fn strip_bearer(value: &str) -> (r: Option<String>)
    ensures
        r matches Some(s) ==> "Bearer "@.len() <= value@.len() && value@.subrange(0, 7) == "Bearer "@
            && s@ == value@.subrange(7, value@.len() as int),
        r is None ==> !("Bearer "@.len() <= value@.len() && value@.subrange(0, 7) == "Bearer "@),
{
    proof {
        reveal_strlit("Bearer ");
    }
    if crate::text::starts_with(value, "Bearer ") {
        let v = chars_of(value);
        Some(string_from_range(&v, 7, v.len()))
    } else {
        None
    }
}

/// Parse the `Authorization` header and extract the bearer token.
pub fn extract_bearer(header: &AuthorizationHeader) -> (r: Result<String, ApiError>)
    ensures
        r matches Ok(t) ==> header matches AuthorizationHeader::Text(v) && bearer_token(v@) == Some(
            t@,
        ) && t@.len() > 0,
        header matches AuthorizationHeader::Missing ==> (r matches Err(e) && api_error_is(
            e,
            401,
            "unauthorized"@,
            "missing Authorization header"@,
        )),
        header matches AuthorizationHeader::Malformed ==> (r matches Err(e) && api_error_is(
            e,
            401,
            "unauthorized"@,
            "malformed Authorization header"@,
        )),
        header matches AuthorizationHeader::Text(v) ==> (bearer_token(v@) is None ==> (r matches Err(
            e,
        ) && api_error_is(e, 401, "unauthorized"@, "expected Bearer scheme"@))),
        header matches AuthorizationHeader::Text(v) ==> (bearer_token(v@) == Some(Seq::<char>::empty())
            ==> (r matches Err(e) && api_error_is(e, 401, "unauthorized"@, "empty bearer token"@))),
        header matches AuthorizationHeader::Text(v) ==> (bearer_token(v@) matches Some(t) && t.len()
            > 0 ==> r is Ok),
{
    proof {
        reveal_strlit("Bearer ");
    }
    let value = match header {
        AuthorizationHeader::Missing => {
            return Err(ApiError::unauthorized("missing Authorization header".to_owned()));
        },
        AuthorizationHeader::Malformed => {
            return Err(ApiError::unauthorized("malformed Authorization header".to_owned()));
        },
        AuthorizationHeader::Text(v) => v,
    };
    let rest = match strip_bearer(value.as_str()) {
        Some(rest) => rest,
        None => return Err(ApiError::unauthorized("expected Bearer scheme".to_owned())),
    };
    let token = trim_str(rest.as_str());
    if token.as_str().is_empty() {
        return Err(ApiError::unauthorized("empty bearer token".to_owned()));
    }
    Ok(token)
}

/// A key made of URL-safe base64 characters, presented as `Bearer <key>`,
/// is extracted unchanged.
pub proof fn presented_key_is_extracted(key: Seq<char>)
    requires
        key.len() > 0,
        forall|i: int| 0 <= i < key.len() ==> crate::crypto::is_url_safe_base64_char(#[trigger] key[i]),
    ensures
        bearer_token("Bearer "@ + key) == Some(key),
{
    reveal_strlit("Bearer ");
    let v = "Bearer "@ + key;
    assert(v.subrange(0, 7) =~= "Bearer "@);
    assert(v.subrange(7, v.len() as int) =~= key);
    assert(crate::crypto::is_url_safe_base64_char(key[0]));
    assert(crate::crypto::is_url_safe_base64_char(key[key.len() - 1]));
    crate::text::trim_keeps_unpadded(key);
}

/// The 401 sent when the presented key is unknown or expired.
pub fn rejected_key() -> (e: ApiError)
    ensures
        api_error_is(e, 401, "unauthorized"@, "invalid or expired api key"@),
{
    ApiError::unauthorized("invalid or expired api key".to_owned())
}

/// Admit a request given the stored key whose hash matches the presented
/// token (`None` when no key matches): only a key that has not expired at
/// `now` admits it, as that key's caller.
pub fn authorize(found: Option<&ApiKey>, now: i64) -> (r: Result<ApiCaller, ApiError>)
    ensures
        r is Ok <==> (found matches Some(k) && !expired(k.expires_at, now)),
        r matches Ok(c) ==> (found matches Some(k) && c.key_id == k.id),
        r matches Err(e) ==> api_error_is(e, 401, "unauthorized"@, "invalid or expired api key"@),
{
    match found {
        Some(k) => {
            if k.is_expired(now) {
                Err(rejected_key())
            } else {
                Ok(ApiCaller { key_id: k.id })
            }
        },
        None => Err(rejected_key()),
    }
}

} // verus!
