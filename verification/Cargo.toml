[package]
name = "token_gate"
version = "0.1.0"
edition = "2021"
publish = false

[dependencies]
base64 = "*"
actix-web = { version = "4", default-features = false, features = ["macros"] }
actix-cors = "*"
serde = { version = "1", features = ["derive"] }
sqlx = { version = "*", default-features = false, features = ["postgres", "runtime-tokio"] }
tempfile = "3"
tracing = "0.1"
tracing-actix-web = "*"
