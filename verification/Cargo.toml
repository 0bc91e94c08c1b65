[package]
name = "reload"
version = "0.1.0"
edition = "2021"
publish = false

[dependencies]
globset = "*"
serde = { version = "*", features = ["derive"] }
serde_yaml = "*"
notify = "*"
notify-debouncer-mini = "*"
anyhow = "*"
