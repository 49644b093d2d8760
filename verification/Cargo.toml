[package]
name = "support_bot"
version = "0.1.0"
edition = "2021"
publish = false

[dependencies]
chrono = "0.4"
cuid2 = "0.1"
async-trait = "0.1"
dotenv = "0.15"
error-stack = "0.3"
log = "0.4"
pretty_env_logger = "0.4"
reqwest = { version = "0.11", default-features = false, features = ["json", "rustls-tls"] }
sentry = { version = "0.31", default-features = false, features = ["backtrace", "contexts", "panic"] }
serde = { version = "1", features = ["derive"] }
serenity = { version = "0.11", default-features = false, features = ["builder", "client", "gateway", "http", "model", "utils", "rustls_backend"] }
tokio = { version = "1", features = ["macros", "rt-multi-thread"] }
