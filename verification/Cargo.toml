[package]
name = "zeptodo"
version = "0.1.0"
edition = "2021"
publish = false

[dependencies]
sha2 = "0.10"
base64 = "0.22"
rand = "0.8"
argon2 = "0.5"
subtle = "2"
chrono = "0.4"
chrono-tz = "*"
pulldown-cmark = "*"
ammonia = "4"
anyhow = "1"
serde = { version = "1", features = ["derive"] }
axum = "0.8"
axum-extra = { version = "0.10", features = ["cookie"] }
tokio = { version = "1", features = ["full"] }
sqlx = { version = "0.8", default-features = false, features = ["sqlite", "runtime-tokio", "chrono", "migrate", "macros"] }
tower = { version = "0.5", features = ["util"] }
tower-http = { version = "0.6", features = ["fs", "trace", "set-header"] }
tower-sessions = { version = "0.14", features = ["signed"] }
tower-sessions-sqlx-store = { version = "0.15", features = ["sqlite"] }
tower_governor = "*"
governor = "*"
askama = "*"
time = "0.3"
tracing = "0.1"
tracing-subscriber = { version = "0.3", features = ["json", "env-filter"] }
tracing-appender = "0.2"
dotenvy = "0.15"
