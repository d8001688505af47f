[package]
name = "brp_web"
version = "0.1.0"
edition = "2021"
publish = false

[dependencies]
axum = "*"
tokio = { version = "*", features = ["macros", "rt-multi-thread", "net"] }
reqwest = { version = "*", default-features = false, features = ["rustls-tls"] }
maud = "*"
sqlx = { version = "*", default-features = false, features = ["runtime-tokio", "sqlite"] }
chrono = { version = "*", default-features = false, features = ["clock"] }
serde = { version = "*", features = ["derive"] }
serde_json = "*"
