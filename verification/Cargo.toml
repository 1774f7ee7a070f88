[package]
name = "sandman"
version = "0.1.0"
edition = "2021"
publish = false

[dependencies]
chrono = "0.4"
croner = "*"
serde = { version = "1", features = ["derive"] }
serde_json = "1"
toml = "*"
tokio = { version = "1", features = ["full"] }
rusqlite = { version = "*", features = ["bundled"] }
reqwest = { version = "0.12", default-features = false, features = ["json", "rustls-tls"] }
clap = { version = "4", features = ["derive"] }
async-trait = "0.1"
thiserror = "*"

[dev-dependencies]
tempfile = "3"
