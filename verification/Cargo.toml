[package]
name = "authcore"
version = "0.1.0"
edition = "2021"
publish = false

[dependencies]
anyhow = "*"
axum = "*"
bcrypt = "=0.19.3"
dotenvy = "*"
jsonwebtoken = { version = "=11.1.0", features = ["rust_crypto"] }
redis = { version = "*", features = ["tokio-comp"] }
serde = { version = "*", features = ["derive"] }
serde_json = "=1.0.151"
sqlx = { version = "*", default-features = false, features = ["runtime-tokio", "postgres", "uuid"] }
tokio = { version = "*", features = ["macros", "rt-multi-thread", "net", "time"] }
tracing = "*"
tracing-subscriber = { version = "*", features = ["env-filter"] }
uuid = "=1.27.0"
