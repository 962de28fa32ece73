[package]
name = "subscription_counter"
version = "0.1.0"
edition = "2021"
publish = false

[dependencies]
prost = "=0.13.5"
tokio = { version = "=1.54.1", features = ["macros", "rt-multi-thread", "sync"] }
tokio-stream = "=0.1.19"
tonic = "=0.13.1"
tonic-web = "=0.13.1"
tower-http = { version = "=0.7.1", features = ["cors"] }
