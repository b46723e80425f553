[package]
name = "igdbc"
version = "0.1.0"
edition = "2021"
publish = false

[dependencies]
async-trait = "=0.1.92"
axum = "=0.6.20"
chrono = { version = "=0.4.45", features = ["serde"] }
config = "=0.14.1"
futures = "=0.3.34"
hyper = "=0.14.32"
itertools = "=0.15.0"
lazy_static = "=1.5.1"
log = "=0.4.34"
reqwest = { version = "=0.11.27", default-features = false, features = ["json", "rustls-tls"] }
sea-orm = { version = "=1.1.20", default-features = false, features = ["macros", "runtime-tokio-rustls", "sqlx-postgres", "with-chrono"] }
sea-orm-migration = { version = "=1.1.20", default-features = false, features = ["runtime-tokio-rustls", "sqlx-postgres"] }
serde = { version = "=1.0.229", features = ["derive"] }
serde_json = "=1.0.154"
serde_path_to_error = "=0.1.20"
thiserror = "=1.0.69"
tokio = { version = "=1.54.1", features = ["full"] }
tower-http = { version = "=0.4.4", features = ["cors", "trace"] }
tracing = "=0.1.44"
tracing-subscriber = { version = "=0.3.23", features = ["env-filter"] }
url = "=2.5.8"
