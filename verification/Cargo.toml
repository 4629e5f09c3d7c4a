[package]
name = "example_seaorm_axum"
version = "0.1.0"
edition = "2021"
publish = false

[dependencies]
async-trait = "0.1"
axum = { version = "0.8", features = ["multipart"] }
chrono = "0.4"
dotenv = "0.15"
jsonwebtoken = "9"
sea-orm = { version = "1.1", default-features = false, features = ["macros", "sqlx-postgres", "runtime-tokio-rustls"] }
serde = { version = "1", features = ["derive"] }
serde_json = "1"
tokio = { version = "1", features = ["full"] }
tracing = "0.1"
utoipa = "5"
utoipa-axum = "0.2"
uuid = { version = "1", features = ["v4"] }
