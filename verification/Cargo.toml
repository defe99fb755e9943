[package]
name = "promo_cache"
version = "0.1.0"
edition = "2021"
publish = false

[dependencies]
urlencoding = "=2.1.3"
sha2 = "=0.11.0"
jsonwebtoken = { version = "=11.1.0", default-features = false, features = ["rust_crypto"] }
serde_json = "=1.0.151"
serde = { version = "*", features = ["derive"] }
axum = "*"
tokio = { version = "*", features = ["rt-multi-thread", "macros", "net"] }
reqwest = { version = "*", default-features = false, features = ["json"] }
chrono = "*"
uuid = { version = "*", features = ["v4", "serde"] }
dotenvy = "*"
tracing = "*"
tracing-subscriber = { version = "*", features = ["env-filter"] }
tower-http = { version = "*", features = ["cors", "limit"] }
