[package]
name = "library_api"
version = "0.1.0"
edition = "2021"
publish = false

[dependencies]
async-trait = "*"
axum = "*"
axum-server = "*"
clap = { version = "*", features = ["derive"] }
dotenvy = "*"
email_pass = "*"
env_logger = "*"
http = "*"
log = "*"
parse-display = "*"
prefixed-api-key = { version = "*", features = ["sha2"] }
serde = { version = "*", features = ["derive"] }
serde_json = "*"
sqlx = { version = "*", default-features = false, features = ["sqlite", "runtime-tokio"] }
thiserror = "*"
tokio = { version = "*", features = ["macros", "rt-multi-thread"] }
tower-http = { version = "*", features = ["trace"] }
tracing-core = "*"
uuid = { version = "*", features = ["v4", "serde"] }
