[package]
name = "artist_polls"
version = "0.1.0"
edition = "2021"
publish = false

[dependencies]
chrono = { version = "*", features = ["serde"] }
color-eyre = "*"
dotenvy = "*"
figment = { version = "*", features = ["toml"] }
futures = "*"
itertools = "*"
poise = "*"
serde = { version = "*", features = ["derive"] }
sqlx = { version = "*", default-features = false, features = ["sqlite", "runtime-tokio"] }
tokio = { version = "*", features = ["full"] }
tracing = "*"
