[package]
name = "voicenote"
version = "0.1.0"
edition = "2021"
publish = false

[dependencies]
hound = "3.5"
cpal = "0.15"
dotenv = "0.15"
reqwest = { version = "0.12", features = ["json", "multipart"] }
serde = { version = "1", features = ["derive"] }
serde_json = "1"
tokio = { version = "1", features = ["rt-multi-thread", "macros", "signal", "sync", "time"] }
