[package]
name = "kepler"
version = "0.1.0"
edition = "2021"
publish = false

[dependencies]
version-compare = "*"
actix-cors = "*"
actix-web = "*"
anyhow = "*"
clap = { version = "*", features = ["derive"] }
config = "*"
diesel = { version = "*", features = ["postgres", "r2d2"] }
diesel_json = "*"
diesel_migrations = "*"
dotenvy = "*"
env_logger = "*"
flate2 = "*"
log = "*"
reqwest = { version = "*", default-features = false, features = ["blocking", "rustls-tls"] }
serde = { version = "*", features = ["derive"] }
serde_json = "*"
thiserror = "*"
tracing = "*"
tracing-actix-web = "*"
tracing-log = "*"
tracing-subscriber = { version = "*", features = ["env-filter"] }
