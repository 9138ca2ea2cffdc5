[package]
name = "kragdb"
version = "0.1.0"
edition = "2021"
publish = false

[dependencies]
chrono = { version = "=0.4.45", features = ["serde"] }
fast_chemail = "=0.9.6"
password-auth = "=1.0.0"
serde = { version = "=1.0.229", features = ["derive"] }
smol_str = "=0.3.6"
sqlx = { version = "=0.9.0", default-features = false, features = ["sqlite", "runtime-tokio", "derive"] }
axum-login = "=0.18.0"
