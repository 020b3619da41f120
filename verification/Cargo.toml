[package]
name = "pg_bootstrap"
version = "0.1.0"
edition = "2021"
publish = false

[dependencies]
anyhow = "1"
config = { version = "0.14", default-features = false }
deadpool-postgres = { version = "0.14", features = ["serde"] }
log = "0.4"
pretty_env_logger = "0.5"
rustls = { version = "0.23", default-features = false, features = ["std", "ring", "logging", "tls12"] }
rustls-pemfile = "2"
serde = { version = "1", features = ["derive"] }
tokio = { version = "1", features = ["macros", "rt-multi-thread"] }
tokio-postgres = "0.7"
tokio-postgres-rustls = "0.13"
