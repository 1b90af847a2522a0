[package]
name = "voice_bot"
version = "0.1.0"
edition = "2021"
publish = false

[dependencies]
serenity = "=0.12.5"
tokio = { version = "1", features = ["macros", "rt-multi-thread", "signal"] }
dotenv = "0.15"
log = "0.4"

[dev-dependencies]
serde_json = "1"
