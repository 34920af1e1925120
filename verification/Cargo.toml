[package]
name = "token_rotation"
version = "0.1.0"
edition = "2021"
publish = false

[dependencies]
jsonwebtoken = { version = "=11.1.0", features = ["rust_crypto"] }
uuid = "=1.27.0"
serde = { version = "*", features = ["derive"] }
serde_json = "*"
actix-web = "*"
actix-cors = "*"
tokio = { version = "*", features = ["macros", "rt-multi-thread"] }
slog = "*"
slog-term = "*"
slog-async = "*"
