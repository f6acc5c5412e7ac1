[package]
name = "catalog"
version = "0.1.0"
edition = "2021"
publish = false

[dependencies]
argon2 = "=0.5.3"
passwords = "=3.1.19"
regex = "=1.13.1"
axum = { version = "=0.8.9", features = ["multipart"] }
axum-htmx = "=0.8.1"
axum_session = "=0.22.0"
dotenvy = "=0.15.7"
maud = { version = "=0.27.0", features = ["axum"] }
serde = { version = "=1.0.229", features = ["derive"] }
sqlx = { version = "=0.7.4", default-features = false, features = ["postgres", "runtime-tokio", "chrono", "migrate"] }
tokio = { version = "=1.54.1", features = ["full"] }
tower-http = { version = "=0.5.2", features = ["fs"] }
