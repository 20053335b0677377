[package]
name = "login_with_axum"
version = "0.1.0"
edition = "2021"
publish = false

[dependencies]
anyhow = "*"
axum = "*"
axum-extra = { version = "*", features = ["cookie"] }
bcrypt = "=0.19.3"
jsonwebtoken = { version = "=11.1.0", features = ["rust_crypto"] }
serde = { version = "*", features = ["derive"] }
serde_json = "=1.0.151"
sqlx = { version = "*", default-features = false, features = ["runtime-tokio", "mysql"] }
tokio = { version = "*", features = ["macros", "rt", "net", "signal"] }
tower-http = { version = "*", features = ["fs", "trace"] }
tracing = "*"
tracing-subscriber = { version = "*", features = ["env-filter"] }
uuid = { version = "=1.27.0", features = ["v4"] }
