[package]
name = "vote_bot"
version = "0.1.0"
edition = "2021"
publish = false

[dependencies]
prost = "0.13"
rand = "0.8"
tokio = { version = "1", features = ["macros", "rt-multi-thread", "time"] }
tonic = "0.12"
tracing = "0.1"
tracing-subscriber = { version = "0.3", features = ["env-filter"] }
