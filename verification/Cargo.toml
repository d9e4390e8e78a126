[package]
name = "fortis"
version = "0.1.0"
edition = "2021"
publish = false

[dependencies]
async-trait = "0.1"
crossterm = { version = "0.28", features = ["event-stream"] }
deepgram = { version = "0.6", default-features = false, features = ["listen"] }
directories = "5"
dotenv = "0.15"
futures = "0.3"
ratatui = "0.29"
serde = { version = "1", features = ["derive"] }
serde_json = "1"
tokio = { version = "1", features = ["macros", "rt-multi-thread", "sync", "time"] }
