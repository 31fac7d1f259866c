[package]
name = "bunker"
version = "0.1.0"
edition = "2021"
publish = false

[dependencies]
async-trait = "=0.1.92"
bincode = { version = "=2.0.0-rc.3", default-features = false }
burn = { version = "=0.9.0", features = ["ndarray"] }
http = "=0.2.12"
nix = { version = "=0.27.1", features = ["resource"] }
npy = "=0.4.0"
num-traits = "=0.2.19"
prost = "=0.12.6"
serde = { version = "=1.0.229", features = ["derive"] }
tokio = { version = "=1.54.1", features = ["macros", "rt-multi-thread", "sync"] }
tokio-stream = "=0.1.19"
tonic = "=0.10.2"
tracing = "=0.1.44"
tracing-subscriber = "=0.3.23"
