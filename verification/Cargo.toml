[package]
name = "event_manager"
version = "0.1.0"
edition = "2021"
publish = false

[dependencies]
chrono = "=0.4.45"
url = "=2.5.8"
regex = "=1.13.1"
validator = "=0.16.1"
jwt-simple = "=0.11.9"
teloxide = { version = "=0.12.2", features = ["macros"] }
takecell = "=0.1.1"
actix-web = "=4.18.1"
serde = { version = "=1.0.229", features = ["derive"] }
serde_json = "=1.0.154"
serde_compact = "=1.0.0-rc.3"
tokio = { version = "=1.54.1", features = ["full"] }
clap = { version = "=4.6.7", features = ["derive"] }
toml = "=1.1.8"
anyhow = "=1.0.104"
thiserror = "=1.0.69"
tracing = "=0.1.44"
futures = "=0.3.34"
async-trait = "=0.1.92"
rusqlite = { version = "=0.40.2", features = ["bundled", "fallible_uint"] }
r2d2 = "=0.8.10"
r2d2_sqlite = "=0.35.0"
