[package]
name = "open_wechat"
version = "0.1.0"
edition = "2021"
publish = false

[dependencies]
aes = "*"
async-trait = "*"
axum = "*"
base64 = "*"
cbc = { version = "*", features = ["alloc"] }
chrono = "*"
dotenvy = "*"
envy = "*"
hex = "*"
hmac = "*"
reqwest = { version = "*", default-features = false, features = ["json", "query"] }
serde = { version = "*", features = ["derive"] }
serde_json = "*"
serde_repr = "*"
sha2 = "*"
strum = { version = "*", features = ["derive"] }
thiserror = "*"
tokio = { version = "*", features = ["rt-multi-thread", "macros", "sync", "net", "fs", "time"] }
tower-http = { version = "*", features = ["trace"] }
tracing = "*"
tracing-appender = "*"
tracing-subscriber = { version = "*", features = ["env-filter"] }
