[package]
name = "lambda-function"
version = "0.1.0"
edition = "2021"
publish = false

[dependencies]
lambda_runtime = "0.8"
serde = { version = "1", features = ["derive"] }
tokio = { version = "1", features = ["macros", "rt-multi-thread"] }
tracing = "0.1"
tracing-subscriber = { version = "0.3", default-features = false, features = ["fmt"] }
