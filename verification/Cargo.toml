[package]
name = "mimir_bot"
version = "0.1.0"
edition = "2021"
publish = false

[dependencies]
serenity = { version = "0.10", features = ["collector"] }
tokio = { version = "1", features = ["macros", "rt-multi-thread", "time"] }
diesel = { version = "1.4", features = ["sqlite"] }
dotenv = "0.15"
image = { version = "0.23", default-features = false, features = ["png"] }
imageproc = "0.22"
rusttype = "0.9"
rand = "0.8"
reqwest = "0.11"
tracing = "0.1"
tracing-subscriber = "0.2"
