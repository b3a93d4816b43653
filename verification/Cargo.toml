[package]
name = "pastebin"
version = "0.1.0"
edition = "2021"
publish = false

[dependencies]
uuid = { version = "*", features = ["v4"] }
syntect = { version = "*", default-features = false, features = ["default-fancy"] }
axum = "*"
tokio = { version = "*", features = ["rt-multi-thread", "macros", "net", "sync"] }
sqlx = { version = "*", default-features = false, features = ["runtime-tokio", "postgres"] }
anyhow = "*"
async-trait = "*"
serde = { version = "*", features = ["derive"] }

[dev-dependencies]
strip-ansi-escapes = "*"
