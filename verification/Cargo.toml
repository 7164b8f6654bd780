[package]
name = "web_app"
version = "0.1.0"
edition = "2021"
publish = false

[dependencies]
axum = { version = "0.6", features = ["headers", "macros"] }
bcrypt = "0.14"
chrono = "0.4"
dotenvy = "0.15"
eyre = "0.6"
jsonwebtoken = "8"
sea-orm = { version = "0.11", default-features = false, features = ["macros", "with-chrono", "sqlx-postgres", "runtime-tokio-rustls"] }
serde = { version = "1", features = ["derive"] }
serde_json = "1"
serde_with = "2"
tokio = { version = "1", features = ["macros", "rt-multi-thread"] }
tower-http = { version = "0.4", features = ["cors"] }
validator = { version = "0.16", features = ["derive"] }
