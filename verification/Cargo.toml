[package]
name = "dsn_cli"
version = "0.1.0"
edition = "2021"
publish = false

[dependencies]
anyhow = "=1.0.104"
async-lock = "=3.5.0"
clap = { version = "=4.6.7", features = ["derive"] }
futures = "=0.3.34"
hex = "=0.4.3"
jsonrpsee = { version = "=0.26.1", features = ["ws-client"] }
rustyline = { version = "=17.0.2", features = ["with-sqlite-history"] }
schnorrkel = "=0.11.5"
time = { version = "=0.3.55", features = ["local-offset", "formatting"] }
tokio = { version = "=1.54.1", features = ["full"] }
tracing = "=0.1.44"
tracing-subscriber = { version = "=0.3.23", features = ["env-filter", "time", "local-time"] }
zeroize = "=1.9.1"
libp2p-identity = { version = "=0.2.14", features = ["ed25519"] }
