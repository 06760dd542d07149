[package]
name = "pico_potion"
version = "0.1.0"
edition = "2021"
publish = false

[dependencies]
axum = "=0.7.9"
rusqlite = { version = "=0.32.1", features = ["bundled"] }
serde = { version = "=1.0.229", features = ["derive"] }
tokio = { version = "=1.54.1", features = ["macros", "rt", "net"] }

[dev-dependencies]
serde_json = "=1.0.154"
