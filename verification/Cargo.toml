[package]
name = "todo"
version = "0.1.0"
edition = "2021"
publish = false

[dependencies]
chrono = { version = "0.4", features = ["serde"] }
uuid = { version = "1", features = ["v4"] }
owo-colors = "4"
serde = { version = "1", features = ["derive"] }
serde_json = "1"
atty = "0.2"
directories = "5"
