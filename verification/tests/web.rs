use zeptodo::domain::api_key::{ApiKey, ExpiryChoice};
use zeptodo::domain::credentials::Credentials;
use zeptodo::domain::task::{Status, Task};
use zeptodo::auth::password;
use zeptodo::web::api_keys::{self, build_view as key_view, expiry_options};
use zeptodo::web::login::{login_page_status, post_login, CredentialsLookup, LoginForm, LoginOutcome};
use zeptodo::web::markdown::render;
use zeptodo::web::rate_limit::{self, BearerHashKeyExtractor, RateLimitError};
use zeptodo::web::security::{
    hsts_header, CSP, FRAME_OPTIONS, NOSNIFF, PERMISSIONS_POLICY_HEADER, REFERRER_POLICY,
};
use zeptodo::web::tasks::{self, build_view, status_options, FormOutcome};
use zeptodo::web::theme::{self, Theme, ToggleOutcome};

#[test]
fn strips_script_tags() {
    let html = render("Hello <script>alert(1)</script> world");
    assert!(!html.contains("<script"));
    assert!(!html.contains("alert(1)"));
    assert!(html.contains("Hello"));
    assert!(html.contains("world"));
}

#[test]
fn strips_javascript_urls() {
    let html = render("[click](javascript:alert(1))");
    assert!(!html.to_lowercase().contains("javascript:"));
}

#[test]
fn strips_inline_event_handlers() {
    let html = render("<img src=\"x\" onerror=\"alert(1)\">");
    assert!(!html.to_lowercase().contains("onerror"));
    assert!(!html.contains("alert(1)"));
}

#[test]
fn keeps_safe_http_link() {
    let html = render("[home](https://example.com)");
    assert!(html.contains("href=\"https://example.com\""));
}

#[test]
fn keeps_mailto_link() {
    let html = render("[mail](mailto:a@b.c)");
    assert!(html.contains("href=\"mailto:a@b.c\""));
}

#[test]
fn renders_basic_formatting() {
    let html = render("**bold** and *italic*");
    assert!(html.contains("<strong>bold</strong>"));
    assert!(html.contains("<em>italic</em>"));
}

#[test]
fn renders_strikethrough() {
    let html = render("~~gone~~");
    assert!(html.contains("<del>gone</del>"));
}

#[test]
fn renders_tables() {
    let html = render("| a | b |\n|---|---|\n| 1 | 2 |");
    assert!(html.contains("<table"));
    assert!(html.contains("<th>a</th>"));
    assert!(html.contains("<td>1</td>"));
}

#[test]
fn escapes_raw_html_input_outside_allowlist() {
    let html = render("<iframe src=\"https://evil\"></iframe>");
    assert!(!html.contains("<iframe"));
}

#[test]
fn links_get_rel_attribute() {
    let html = render("[home](https://example.com)");
    assert!(html.contains("noopener nofollow"));
}

#[test]
fn same_token_hashes_to_same_key() {
    let extractor = BearerHashKeyExtractor;
    let a = extractor.extract(Some("Bearer abc123"));
    let b = extractor.extract(Some("Bearer abc123"));
    assert_eq!(a, b);
    assert_eq!(a.len(), 64);
}

#[test]
fn different_tokens_hash_differently() {
    let extractor = BearerHashKeyExtractor;
    let a = extractor.extract(Some("Bearer abc"));
    let b = extractor.extract(Some("Bearer xyz"));
    assert_ne!(a, b);
}

#[test]
fn missing_or_malformed_authorization_falls_back_to_shared_bucket() {
    let extractor = BearerHashKeyExtractor;
    assert_eq!(extractor.extract(None), "none");
    assert_eq!(extractor.extract(Some("Basic abcdef")), "none");
    assert_eq!(extractor.extract(Some("Bearer ")), "none");
}

#[test]
fn bucket_is_stored_key_hash() {
    let extractor = BearerHashKeyExtractor;
    assert_eq!(extractor.extract(Some("Bearer tok ")), zeptodo::domain::api_key::hash("tok"));
}

#[test]
fn rate_limit_errors_render() {
    let r = rate_limit::html_error(&RateLimitError::TooManyRequests { wait_time: 12 });
    assert_eq!(r.status, 429);
    assert_eq!(r.retry_after.as_deref(), Some("12"));
    let r = rate_limit::html_error(&RateLimitError::UnableToExtractKey);
    assert_eq!(r.status, 500);
    let r = rate_limit::html_error(&RateLimitError::Other { code: 503, msg: None });
    assert_eq!((r.status, r.body.as_str()), (503, "rate-limit error"));
    let (e, retry) = rate_limit::api_error(&RateLimitError::TooManyRequests { wait_time: 3 });
    assert_eq!((e.status, e.code, retry.as_deref()), (429, "rate_limited", Some("3")));
    let (e, retry) = rate_limit::api_error(&RateLimitError::Other { code: 503, msg: Some("busy".into()) });
    assert_eq!((e.status, e.message.as_str(), retry), (500, "busy", None));
}

#[test]
fn applies_baseline_headers() {
    assert!(CSP.contains("default-src 'self'"));
    assert!(CSP.contains("script-src 'self'"));
    assert!(!CSP.contains("'unsafe-eval'"));
    assert!(!CSP.split(';').any(|d| {
        let d = d.trim();
        d.starts_with("script-src") && d.contains("'unsafe-inline'")
    }));
    assert_eq!(NOSNIFF, "nosniff");
    assert_eq!(FRAME_OPTIONS, "DENY");
    assert_eq!(REFERRER_POLICY, "same-origin");
    assert_eq!(PERMISSIONS_POLICY_HEADER, "permissions-policy");
    assert!(hsts_header(false).is_none());
}

#[test]
fn hsts_only_on_https() {
    assert!(hsts_header(true).unwrap().contains("max-age="));
}

#[test]
fn set_status_cycles_through_all_states() {
    for (name, status) in [
        ("in_progress", Status::InProgress),
        ("done", Status::Done),
        ("cancelled", Status::Cancelled),
        ("todo", Status::Todo),
    ] {
        let form = tasks::StatusForm { csrf: "t".to_owned(), status: name.to_owned() };
        match tasks::set_status(true, &form) {
            FormOutcome::Proceed(s) => assert_eq!(s, status),
            other => panic!("unexpected outcome {other:?}"),
        }
    }
}

#[test]
fn theme_cookie_parsing_and_toggle() {
    assert_eq!(Theme::from_cookie_value("light"), Theme::Light);
    assert_eq!(Theme::from_cookie_value("dark"), Theme::Dark);
    assert_eq!(Theme::from_cookie_value("neon"), Theme::Dark);
    assert_eq!(Theme::from_cookie(None), Theme::Dark);
    assert_eq!(Theme::Light.toggled().toggled(), Theme::Light);
    match theme::toggle(true, Some("light"), true, false, None) {
        ToggleOutcome::Toggled { cookie, redirect } => {
            assert_eq!(cookie.value, "dark");
            assert!(cookie.secure && !cookie.http_only && cookie.same_site_strict);
            assert_eq!(cookie.max_age_seconds, 31_536_000);
            assert_eq!(redirect.as_deref(), Some("/"));
        }
        ToggleOutcome::Forbidden => panic!("csrf was ok"),
    }
    match theme::toggle(true, None, false, true, Some("/api-keys")) {
        ToggleOutcome::Toggled { cookie, redirect } => {
            assert_eq!(cookie.value, "light");
            assert!(redirect.is_none());
        }
        ToggleOutcome::Forbidden => panic!("csrf was ok"),
    }
    assert!(matches!(theme::toggle(false, None, false, true, None), ToggleOutcome::Forbidden));
}

fn task(status: Status, description: Option<&str>) -> Task {
    Task {
        id: 1,
        title: "t".into(),
        description: description.map(String::from),
        status,
        position: 1,
        created_at: 0,
        updated_at: 0,
    }
}

#[test]
fn task_view_projects_status_and_description() {
    let v = build_view(&task(Status::Done, Some("  ")));
    assert_eq!((v.status, v.status_label, v.status_text_class), ("done", "Done", "text-success"));
    assert!(v.is_done && !v.is_cancelled && !v.has_description);
    let v = build_view(&task(Status::Todo, Some("x")));
    assert!(v.has_description);
    let opts = status_options();
    let values: Vec<_> = opts.iter().map(|o| o.value).collect();
    assert_eq!(values, vec!["todo", "in_progress", "done", "cancelled"]);
}

#[test]
fn task_forms_validate_title_and_csrf() {
    let form = tasks::CreateForm { csrf: "c".into(), title: "  hi  ".into(), description: Some("  ".into()) };
    match tasks::create_task(true, &form) {
        FormOutcome::Proceed(t) => {
            assert_eq!(t.title, "hi");
            assert!(t.description.is_none());
        }
        _ => panic!("expected proceed"),
    }
    assert!(matches!(tasks::create_task(false, &form), FormOutcome::Forbidden));
    let accented = tasks::CreateForm { csrf: "c".into(), title: "é".repeat(128), description: None };
    assert!(matches!(tasks::create_task(true, &accented), FormOutcome::Proceed(_)));
    let long = tasks::CreateForm { csrf: "c".into(), title: "é".repeat(129), description: None };
    assert!(matches!(tasks::create_task(true, &long), FormOutcome::BadRequest("title must be 1 to 128 characters")));
    let status = tasks::StatusForm { csrf: "c".into(), status: "paused".into() };
    assert!(matches!(tasks::set_status(true, &status), FormOutcome::BadRequest("invalid status")));
    assert!(matches!(tasks::toggle_show_terminal(true, None), FormOutcome::Proceed(true)));
    assert!(matches!(tasks::toggle_show_terminal(true, Some(true)), FormOutcome::Proceed(false)));
}

#[test]
fn api_key_views_and_forms() {
    let record = ApiKey {
        id: 3,
        key_prefix: "abcdefgh".into(),
        key_hash: "h".into(),
        description: None,
        expires_at: Some(0),
        last_used_at: None,
        created_at: 0,
    };
    let v = key_view(&record, 0);
    assert!(v.is_expired);
    assert_eq!(v.expires_at_display, "1970-01-01 00:00 UTC");
    assert_eq!(v.last_used_at_display, "Never");
    assert_eq!(v.current_expiry_value, "365");
    assert!(!key_view(&record, -1).is_expired);
    assert_eq!(expiry_options().len(), 5);
    let form = api_keys::CreateForm { csrf: "c".into(), description: Some(" ci ".into()), expiry: "90".into() };
    match api_keys::create(true, &form) {
        FormOutcome::Proceed((d, c)) => {
            assert_eq!(d.as_deref(), Some("ci"));
            assert_eq!(c, ExpiryChoice::Days90);
        }
        _ => panic!("expected proceed"),
    }
    let bad = api_keys::EditExpiryForm { csrf: "c".into(), expiry: "7".into() };
    assert!(matches!(api_keys::edit_expiry(true, &bad), FormOutcome::BadRequest("invalid expiry choice")));
}

#[test]
fn login_checks_username_and_password() {
    let creds = Credentials {
        username: "admin".into(),
        password_hash: password::hash("secret").unwrap(),
        timezone: "UTC".into(),
        last_login_at: None,
    };
    let lookup = CredentialsLookup::Found(creds);
    let form = |u: &str, p: &str| LoginForm { csrf: "c".into(), username: u.into(), password: p.into() };
    assert!(matches!(post_login(true, &form(" admin ", "secret"), &lookup), LoginOutcome::LoggedIn { .. }));
    match post_login(true, &form("admin", "nope"), &lookup) {
        LoginOutcome::Rejected { message, username } => {
            assert_eq!(message, "Invalid username or password.");
            assert_eq!(username, "admin");
        }
        _ => panic!("expected rejection"),
    }
    assert!(matches!(post_login(true, &form("root", "secret"), &lookup), LoginOutcome::Rejected { .. }));
    assert!(matches!(post_login(false, &form("admin", "secret"), &lookup), LoginOutcome::Forbidden));
    assert!(matches!(
        post_login(true, &form("admin", "secret"), &CredentialsLookup::Missing),
        LoginOutcome::Rejected { message: "Server is not configured.", .. }
    ));
    assert!(matches!(
        post_login(true, &form("admin", "secret"), &CredentialsLookup::Failed),
        LoginOutcome::Failed
    ));
    assert_eq!(login_page_status(Some("x")), 401);
    assert_eq!(login_page_status(None), 200);
}
