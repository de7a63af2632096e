use zeptodo::auth::password;
use zeptodo::config::Config;
use zeptodo::domain::credentials::{plan_reconcile, reconcile, CredentialWrite, Credentials, ReconcileError};

fn cfg(username: Option<&str>, password: Option<&str>, timezone: Option<&str>) -> Config {
    Config {
        bind_addr: "127.0.0.1:0".into(),
        database_url: "sqlite::memory:".into(),
        base_url: "http://localhost".into(),
        session_secret: "x".repeat(64),
        username: username.map(str::to_string),
        password: password.map(str::to_string),
        timezone: timezone.map(str::to_string),
        log_dir: None,
        behind_proxy: false,
    }
}

fn row(username: &str, password: &str, timezone: &str) -> Credentials {
    Credentials {
        username: username.into(),
        password_hash: password::hash(password).unwrap(),
        timezone: timezone.into(),
        last_login_at: None,
    }
}

#[test]
fn bootstrap_creates_row_when_env_present() {
    let plan = reconcile(None, &cfg(Some("admin"), Some("secret"), Some("Europe/Paris")));
    assert!(plan.failure.is_none());
    match &plan.writes[..] {
        [CredentialWrite::Insert { username, password_hash, timezone }] => {
            assert_eq!(username, "admin");
            assert_eq!(timezone, "Europe/Paris");
            assert!(password::verify("secret", password_hash).unwrap());
        }
        other => panic!("unexpected {other:?}"),
    }
}

#[test]
fn bootstrap_defaults_timezone_to_utc() {
    let plan = reconcile(None, &cfg(Some("admin"), Some("secret"), None));
    assert!(matches!(&plan.writes[..], [CredentialWrite::Insert { timezone, .. }] if timezone == "UTC"));
}

#[test]
fn bootstrap_fails_when_credentials_missing() {
    let plan = reconcile(None, &cfg(None, None, None));
    assert!(plan.writes.is_empty());
    assert!(matches!(plan.failure, Some(ReconcileError::MissingUsername)));
    let plan = reconcile(None, &cfg(Some("a"), None, None));
    assert!(matches!(plan.failure, Some(ReconcileError::MissingPassword)));
}

#[test]
fn update_changes_username_and_keeps_password() {
    let current = row("a", "p", "UTC");
    let plan = reconcile(Some(&current), &cfg(Some("b"), None, None));
    assert!(plan.failure.is_none());
    assert!(matches!(&plan.writes[..], [CredentialWrite::SetUsername(u)] if u == "b"));
}

#[test]
fn update_rehashes_password_when_plaintext_differs() {
    let current = row("a", "old", "UTC");
    let plan = reconcile(Some(&current), &cfg(None, Some("new"), None));
    match &plan.writes[..] {
        [CredentialWrite::SetPasswordHash(h)] => {
            assert_ne!(h, &current.password_hash);
            assert!(password::verify("new", h).unwrap());
        }
        other => panic!("unexpected {other:?}"),
    }
    let same = reconcile(Some(&current), &cfg(Some("a"), Some("old"), Some("UTC")));
    assert!(same.writes.is_empty() && same.failure.is_none());
}

#[test]
fn invalid_timezone_rejected() {
    let plan = reconcile(None, &cfg(Some("a"), Some("p"), Some("Not/A_Zone")));
    assert!(plan.writes.is_empty());
    assert!(matches!(plan.failure, Some(ReconcileError::InvalidTimezone { ref value }) if value == "Not/A_Zone"));
    let current = row("a", "p", "UTC");
    let plan = reconcile(Some(&current), &cfg(Some("b"), None, Some("Not/A_Zone")));
    assert!(matches!(&plan.writes[..], [CredentialWrite::SetUsername(_)]));
    assert!(matches!(plan.failure, Some(ReconcileError::InvalidTimezone { .. })));
}

#[test]
fn plan_follows_the_zone_lookup_answer() {
    let c = cfg(Some("admin"), Some("secret"), Some("Atlantis/Capital"));
    let plan = plan_reconcile(None, &c, true);
    assert!(plan.failure.is_none());
    assert!(matches!(&plan.writes[..], [CredentialWrite::Insert { timezone, .. }] if timezone == "Atlantis/Capital"));
    let plan = plan_reconcile(None, &c, false);
    assert!(plan.writes.is_empty());
    assert!(matches!(plan.failure, Some(ReconcileError::InvalidTimezone { ref value }) if value == "Atlantis/Capital"));

    let current = row("admin", "secret", "UTC");
    let plan = plan_reconcile(Some(&current), &c, true);
    assert!(plan.failure.is_none());
    assert!(matches!(&plan.writes[..], [CredentialWrite::SetTimezone(t)] if t == "Atlantis/Capital"));
    let plan = plan_reconcile(Some(&current), &c, false);
    assert!(plan.writes.is_empty());
    assert!(matches!(plan.failure, Some(ReconcileError::InvalidTimezone { .. })));
}
