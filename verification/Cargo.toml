[package]
name = "function_compose"
version = "0.1.0"
edition = "2021"
publish = false

[dependencies]
hmac = "0.12"
sha2 = "0.10"
jwt = "=0.16.0"
bcrypt = "=0.19.3"
serde = { version = "*", features = ["derive"] }
serde_json = "*"
serde_qs = "*"
uuid = { version = "*", features = ["v4", "serde"] }
futures = "*"
tokio = { version = "*", features = ["rt-multi-thread", "macros", "time", "sync", "net"] }
axum = "*"
tower-http = { version = "*", features = ["cors"] }
dotenv = "*"
