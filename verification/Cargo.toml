[package]
name = "message_api"
version = "0.1.0"
edition = "2021"
publish = false

[dependencies]
actix-web = { version = "=4.18.1", default-features = false, features = ["macros"] }
chrono = { version = "=0.4.45", default-features = false, features = ["serde", "clock", "std"] }
serde = { version = "=1.0.229", features = ["derive"] }
sqlx = { version = "=0.8.6", default-features = false, features = ["runtime-tokio", "postgres", "json"] }
tokio = { version = "=1.54.1", default-features = false, features = ["rt", "macros", "sync", "time"] }
tokio-stream = { version = "=0.1.19", default-features = false }
utoipa = { version = "=5.5.0", default-features = false, features = ["macros", "chrono"] }
