[package]
name = "notifications"
version = "0.1.0"
edition = "2021"
publish = false

[dependencies]
rust-i18n = "=3.1.5"
serde = { version = "=1.0.229", features = ["derive"] }
serde_json = "=1.0.154"
thiserror = "=1.0.69"
tracing = "=0.1.44"
tokio = { version = "=1.54.1", features = ["macros", "rt-multi-thread"] }
sqlx = { version = "=0.7.4", default-features = false, features = ["runtime-tokio", "postgres", "json"] }
async-graphql = { version = "=6.0.11", features = ["tracing"] }
async-graphql-axum = "=6.0.11"
axum = "=0.6.20"
