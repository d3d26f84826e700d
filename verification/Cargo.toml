[package]
name = "helpernote"
version = "0.1.0"
edition = "2021"
publish = false

[dependencies]
axum = "*"
bcrypt = "=0.19.3"
chrono = "*"
dotenvy = "*"
jsonwebtoken = { version = "=11.1.0", features = ["rust_crypto"] }
serde = { version = "*", features = ["derive"] }
serde_json = "*"
tokio = { version = "*", features = ["rt-multi-thread", "macros", "net"] }
uuid = { version = "*", features = ["v4"] }

[dev-dependencies]
rust_decimal = "*"
