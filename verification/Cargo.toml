[package]
name = "run_to_class"
version = "0.1.0"
edition = "2021"
publish = false

[dependencies]
chrono = "0.4"
notify-rust = "4"
reqwest = { version = "0.11", features = ["blocking", "json"] }
serde = { version = "1", features = ["derive"] }
