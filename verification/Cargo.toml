[package]
name = "orgfetch"
version = "0.1.0"
edition = "2021"
publish = false

[dependencies]
serde_json = "=1.0.151"
octocrab = "=0.43.0"
tokio = { version = "=1.53.2", features = ["macros", "rt-multi-thread"] }
dotenv = "=0.15.0"
