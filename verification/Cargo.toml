[package]
name = "session_auth"
version = "0.1.0"
edition = "2021"
publish = false

[dependencies]
rusqlite = { version = "=0.40.2", features = ["bundled"] }
chacha20poly1305 = "=0.11.0"
handlebars = "=6.4.4"
serde_json = "=1.0.151"
serde = { version = "=1.0.229", features = ["derive"] }
toml = "=1.1.7"
iron = "=0.6.1"
router = "=0.6.0"
params = "=0.8.0"
