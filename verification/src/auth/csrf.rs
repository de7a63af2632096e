use vstd::prelude::*;

use crate::crypto::{base64_url_encode, base64_url_unpadded, constant_time_eq, thread_random_32};

verus! {

/// Session key under which the CSRF token is stored.
pub const SESSION_KEY: &'static str = "csrf_token";

/// Number of random bytes in a CSRF token.
pub const TOKEN_BYTES: usize = 32;

/// The per-session CSRF token, and whether it was just generated (and so
/// must be written to the session).
#[derive(Debug, Clone)]
pub struct CsrfToken {
    pub value: String,
    pub fresh: bool,
}

/// A generated token: the URL-safe base64 encoding of random bytes.
pub open spec fn is_generated_token(t: Seq<char>) -> bool {
    exists|bytes: Seq<u8>| bytes.len() == TOKEN_BYTES && t == base64_url_unpadded(bytes)
}

/// The session's CSRF token: the stored one, or a new one when none is stored.
pub fn token(stored: Option<String>) -> (t: CsrfToken)
    ensures
        stored matches Some(s) ==> t.value == s && !t.fresh,
        stored is None ==> t.fresh && is_generated_token(t.value@) && t.value@.len() == 43,
{
    match stored {
        Some(existing) => CsrfToken { value: existing, fresh: false },
        None => {
            let bytes = thread_random_32();
            CsrfToken { value: base64_url_encode(bytes.as_slice()), fresh: true }
        },
    }
}

/// A submission passes when the session holds a token equal to it.
pub open spec fn csrf_accepts(stored: Option<Seq<char>>, submitted: Seq<char>) -> bool {
    stored matches Some(s) && s == submitted
}

/// A session token, once issued, accepts itself and nothing else.
pub proof fn issued_token_verifies(t: Seq<char>, other: Seq<char>)
    ensures
        csrf_accepts(Some(t), t),
        other != t ==> !csrf_accepts(Some(t), other),
        !csrf_accepts(None, other),
{
}

/// Whether a submitted token matches the one stored in the session, compared
/// in constant time. No stored token matches nothing.
pub fn verify(stored: Option<&str>, submitted: &str) -> (b: bool)
    ensures
        b == csrf_accepts(
            match stored {
                Some(s) => Some(s@),
                None => None,
            },
            submitted@,
        ),
{
    match stored {
        None => false,
        Some(s) => {
            let r = constant_time_eq(s.as_bytes(), submitted.as_bytes());
            proof {
                vstd::utf8::encode_utf8_decode_utf8(s@);
                vstd::utf8::encode_utf8_decode_utf8(submitted@);
            }
            r
        },
    }
}

} // verus!
