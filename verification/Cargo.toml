[package]
name = "auth_core"
version = "0.1.0"
edition = "2021"
publish = false

[dependencies]
argon2 = "0.5"
hmac = "0.12"
sha2 = "0.10"
hex = "0.4"
jsonwebtoken = { version = "10", features = ["rust_crypto"] }
uuid = { version = "1", features = ["v4", "serde"] }
chrono = { version = "0.4", features = ["serde"] }
serde = { version = "1", features = ["derive"] }
serde_json = "1"
axum = { version = "0.8", features = ["macros"] }
tokio = { version = "1", features = ["rt-multi-thread", "macros", "net"] }
tracing = "0.1"
tracing-subscriber = { version = "0.3", features = ["json"] }
thiserror = "2"
validator = { version = "0.20", features = ["derive"] }
utoipa = { version = "5", features = ["uuid"] }
utoipa-swagger-ui = { version = "9", features = ["axum", "vendored"] }
dotenvy = "0.15"
async-trait = "0.1"
sqlx = { version = "0.8", default-features = false, features = ["postgres", "runtime-tokio", "uuid", "chrono"] }
config = { version = "0.15", default-features = false }
