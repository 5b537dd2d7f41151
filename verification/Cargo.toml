[package]
name = "allium_shell"
version = "0.1.0"
edition = "2021"
publish = false

[dependencies]
sha2 = "*"
base32 = "*"
chrono = "*"
serde = { version = "*", features = ["derive"] }
serde_json = "*"
toml = "*"
tokio = { version = "*", features = ["rt", "macros", "net", "time", "sync", "process"] }
anyhow = "*"
log = "*"
env_logger = "*"
image = "*"
framebuffer = "*"
embedded-graphics = "*"
rusqlite = { version = "*", features = ["bundled"] }
