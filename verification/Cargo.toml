[package]
name = "polar_bear_rig_hft"
version = "0.1.0"
edition = "2021"
publish = false

[dependencies]
rand = "=0.8.8"
anyhow = "=1.0.104"
clap = { version = "=4.6.7", features = ["derive"] }
dotenvy = "=0.15.7"
rig-core = { version = "=0.36.0", default-features = false, features = ["rustls"] }
serde = { version = "=1.0.229", features = ["derive"] }
serde_json = "=1.0.154"
solana-keypair = { version = "=3.1.2", default-features = false }
tokio = { version = "=1.54.1", features = ["rt-multi-thread", "time"] }
tracing = "=0.1.44"
tracing-subscriber = { version = "=0.3.23", default-features = false, features = ["fmt", "env-filter", "std"] }
