[package]
name = "backend"
version = "0.1.0"
edition = "2021"
publish = false

[dependencies]
rusqlite = { version = "=0.40.2", features = ["bundled"] }
r2d2 = "=0.8.10"
r2d2_sqlite = "=0.35.0"
serde = { version = "=1.0.229", features = ["derive"] }
serde_json = "=1.0.154"
strum = "0.28"
strum_macros = "=0.28.0"
utoipa = "=6.0.0"
axum = "=0.8.9"
