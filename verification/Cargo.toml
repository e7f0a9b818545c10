[package]
name = "agentgraph"
version = "0.1.0"
edition = "2021"
publish = false

[dependencies]
uuid = { version = "=1.27.0", features = ["v4"] }
tokio = { version = "=1.53.2", features = ["rt", "time", "sync"] }
async-trait = "=0.1.92"
async-openai = { version = "=0.42.1", features = ["chat-completion"] }
async-stream = "=0.3.6"
futures = "=0.3.34"
serde = { version = "=1.0.229", features = ["derive"] }
serde_json = "=1.0.151"
reqwest = { version = "=0.13.5", features = ["json"] }
chrono = { version = "=0.4.45", default-features = false, features = ["clock"] }
schemars = "=1.2.2"
