[package]
name = "mediagenerator"
version = "0.1.0"
edition = "2021"
publish = false

[dependencies]
async-trait = "=0.1.92"
axum = { version = "=0.8.9", default-features = false, features = ["json"] }
azure_core = "=1.1.0"
azure_identity = { version = "=1.0.0", features = ["tokio"] }
base64 = "=0.22.1"
hmac = "=0.13.0"
openidconnect = { version = "=4.1.0", default-features = false, features = ["reqwest"] }
rand = "=0.10.3"
reqwest = { version = "=0.12.28", default-features = false, features = ["json", "multipart", "rustls-tls"] }
serde = { version = "=1.0.229", features = ["derive"] }
serde_json = "=1.0.154"
sha2 = "=0.11.1"
sqlx = { version = "=0.9.0", default-features = false, features = ["postgres", "runtime-tokio", "tls-rustls-ring", "uuid", "time", "json", "migrate"] }
thiserror = "=2.0.21"
time = { version = "=0.3.55", features = ["parsing", "formatting", "serde", "serde-well-known", "macros"] }
tokio = { version = "=1.54.1", features = ["sync", "time"] }
tower-sessions = "=0.14.0"
tracing = "=0.1.44"
url = "=2.5.8"
uuid = { version = "=1.29.0", features = ["v4", "serde"] }
