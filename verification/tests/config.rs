use zeptodo::config::{validated_session_secret, env_flag, Config, ConfigError};

fn vars(pairs: &[(&str, &str)]) -> Vec<(String, String)> {
    pairs.iter().map(|(k, v)| (k.to_string(), v.to_string())).collect()
}

#[test]
fn session_secret_shorter_than_32_bytes_is_rejected() {
    let result = validated_session_secret("x".repeat(31));
    assert!(result.is_err());
    let message = result.unwrap_err().message();
    assert!(message.contains("at least 32 bytes"));
}

#[test]
fn session_secret_of_32_bytes_is_accepted() {
    let secret = "x".repeat(32);
    assert_eq!(validated_session_secret(secret.clone()).unwrap(), secret);
}

#[test]
fn env_flag_reads_truthy_and_falsy_values() {
    let key = "ZEPTODO_TEST_BEHIND_PROXY_FLAG";
    for truthy in ["1", "true", "TRUE", " yes ", "On"] {
        assert!(env_flag(&vars(&[(key, truthy)]), key), "expected {truthy:?} to be truthy");
    }
    for falsy in ["0", "false", "no", "off", "", "banana"] {
        assert!(!env_flag(&vars(&[(key, falsy)]), key), "expected {falsy:?} to be falsy");
    }
    assert!(!env_flag(&vars(&[]), key));
}

#[test]
fn secret_message_reports_byte_length() {
    let err = validated_session_secret("é".repeat(10)).unwrap_err();
    assert_eq!(err.message(), "SESSION_SECRET must be at least 32 bytes, got 20");
}

fn full_env() -> Vec<(String, String)> {
    vars(&[
        ("BIND_ADDR", "127.0.0.1:8080"),
        ("DATABASE_URL", "sqlite://data/zeptodo.db"),
        ("BASE_URL", "https://todo.example"),
        ("SESSION_SECRET", "replace-with-32-bytes-of-random-data-please"),
        ("USERNAME", "admin"),
        ("PASSWORD", ""),
        ("TIMEZONE", "Europe/Paris"),
        ("BEHIND_PROXY", "yes"),
    ])
}

#[test]
fn from_env_loads_all_fields_and_treats_empty_as_unset() {
    let cfg = Config::from_env(&full_env()).unwrap();
    assert_eq!(cfg.bind_addr, "127.0.0.1:8080");
    assert_eq!(cfg.database_url, "sqlite://data/zeptodo.db");
    assert_eq!(cfg.username.as_deref(), Some("admin"));
    assert_eq!(cfg.password, None);
    assert_eq!(cfg.timezone.as_deref(), Some("Europe/Paris"));
    assert_eq!(cfg.log_dir, None);
    assert!(cfg.behind_proxy);
    assert!(cfg.cookies_secure());
}

#[test]
fn from_env_reports_first_missing_variable() {
    let mut env = full_env();
    env.retain(|(k, _)| k != "DATABASE_URL" && k != "BASE_URL");
    match Config::from_env(&env) {
        Err(ConfigError::Missing { key }) => assert_eq!(key, "DATABASE_URL"),
        other => panic!("unexpected {other:?}"),
    }
    let mut env = full_env();
    env[0].1 = String::new();
    let err = Config::from_env(&env).unwrap_err();
    assert_eq!(err.message(), "environment variable BIND_ADDR is required");
}

#[test]
fn from_env_rejects_short_secret() {
    let mut env = full_env();
    env[3].1 = "short".to_string();
    match Config::from_env(&env) {
        Err(ConfigError::SecretTooShort { len }) => assert_eq!(len, 5),
        other => panic!("unexpected {other:?}"),
    }
}

#[test]
fn cookies_secure_only_for_https_base_url() {
    let mut env = full_env();
    env[2].1 = "http://localhost:8080".to_string();
    assert!(!Config::from_env(&env).unwrap().cookies_secure());
}
