use zeptodo::api::auth::{authorize, extract_bearer, AuthorizationHeader};
use zeptodo::auth::csrf;
use zeptodo::auth::guard::AuthedUser;
use zeptodo::auth::password::{hash, verify, PasswordError};

#[test]
fn hash_and_verify_roundtrip() {
    let h = hash("correct horse battery staple").unwrap();
    assert!(verify("correct horse battery staple", &h).unwrap());
    assert!(!verify("wrong password", &h).unwrap());
}

#[test]
fn each_hash_is_unique() {
    let a = hash("same").unwrap();
    let b = hash("same").unwrap();
    assert_ne!(a, b, "fresh salt must produce different hashes");
    assert!(verify("same", &a).unwrap());
    assert!(verify("same", &b).unwrap());
}

#[test]
fn verify_rejects_corrupted_hash() {
    assert_eq!(verify("x", "not a phc string"), Err(PasswordError::InvalidHash));
    assert_eq!(verify("x", ""), Err(PasswordError::InvalidHash));
}

#[test]
fn csrf_token_is_kept_or_minted() {
    let kept = csrf::token(Some("abc".to_string()));
    assert_eq!(kept.value, "abc");
    assert!(!kept.fresh);
    let fresh = csrf::token(None);
    assert!(fresh.fresh);
    assert_eq!(fresh.value.len(), 43);
    assert_ne!(fresh.value, csrf::token(None).value);
}

#[test]
fn csrf_verify_requires_exact_stored_token() {
    assert!(csrf::verify(Some("tok"), "tok"));
    assert!(!csrf::verify(Some("tok"), "tok2"));
    assert!(!csrf::verify(Some("tok"), ""));
    assert!(!csrf::verify(None, "tok"));
}

#[test]
fn authed_user_needs_session_username() {
    assert!(AuthedUser::from_session(None).is_none());
    assert_eq!(AuthedUser::from_session(Some("admin".into())).unwrap().0, "admin");
}

fn text(s: &str) -> AuthorizationHeader {
    AuthorizationHeader::Text(s.to_string())
}

#[test]
fn bearer_extraction_errors_are_401_envelopes() {
    for (header, message) in [
        (AuthorizationHeader::Missing, "missing Authorization header"),
        (AuthorizationHeader::Malformed, "malformed Authorization header"),
        (text("Basic abc"), "expected Bearer scheme"),
        (text("Bearer    "), "empty bearer token"),
    ] {
        let e = extract_bearer(&header).unwrap_err();
        assert_eq!(e.status, 401);
        assert_eq!(e.code, "unauthorized");
        assert_eq!(e.message, message);
    }
    assert_eq!(extract_bearer(&text("Bearer  abc123 ")).unwrap(), "abc123");
}

fn stored_key(id: i64, expires_at: Option<i64>) -> zeptodo::domain::api_key::ApiKey {
    zeptodo::domain::api_key::ApiKey {
        id,
        key_prefix: "abcdefgh".to_owned(),
        key_hash: zeptodo::domain::api_key::hash("abcdefgh-token"),
        description: None,
        expires_at,
        last_used_at: None,
        created_at: 0,
    }
}

#[test]
fn authorize_admits_live_keys_only() {
    let now = 1_000_000;
    let never = stored_key(7, None);
    assert_eq!(authorize(Some(&never), now).unwrap().key_id, 7);
    let later = stored_key(8, Some(now + 1));
    assert_eq!(authorize(Some(&later), now).unwrap().key_id, 8);
    for refused in [None, Some(stored_key(9, Some(now))), Some(stored_key(10, Some(now - 1)))] {
        let err = authorize(refused.as_ref(), now).unwrap_err();
        assert_eq!(err.status, 401);
        assert_eq!(err.code, "unauthorized");
        assert_eq!(err.message, "invalid or expired api key");
    }
}
