[package]
name = "teebench_web"
version = "0.1.0"
edition = "2021"
publish = false

[dependencies]
imara-diff = "0.1"
csv = "1"
time = { version = "0.3", features = ["formatting", "parsing", "macros", "serde"] }
serde = { version = "1", features = ["derive"] }
serde_json = "1"
anyhow = "1"
thiserror = "1"
indoc = "2"
once_cell = "1"
lazy_static = "1"
tokio = { version = "1", features = ["full"] }
tracing = "0.1"
tracing-subscriber = "0.3"
axum = { version = "0.6", features = ["ws"] }
axum-extra = { version = "0.4", features = ["spa"] }
axum-macros = "0.3"
rusqlite = { version = "0.29", features = ["bundled", "csvtab"] }
rusqlite_migration = "1.0"
