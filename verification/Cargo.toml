[package]
name = "kbot_rust"
version = "0.1.0"
edition = "2021"
publish = false

[dependencies]
bson = "2"
dashmap = "=4.0.2"
dotenv = "=0.15.0"
mongodb = "2.8"
reqwest = { version = "=0.11.27", default-features = false, features = ["json", "rustls-tls"] }
serde = { version = "=1.0.229", features = ["derive"] }
serenity = { version = "=0.10.10", features = ["collector"] }
tokio = { version = "=1.54.1", features = ["macros", "rt-multi-thread"] }
tracing = "=0.1.44"
tracing-subscriber = "=0.2.25"
urlencoding = "=1.3.3"
