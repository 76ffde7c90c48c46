[package]
name = "p2p_songs"
version = "0.1.0"
edition = "2021"
publish = false

[dependencies]
serde = { version = "1", features = ["derive"] }
serde_json = "1"
uuid = { version = "1", features = ["v4"] }
libp2p = { version = "0.41", default-features = false, features = ["tcp-tokio", "mdns", "floodsub", "mplex", "noise", "request-response"] }
tokio = { version = "1", features = ["io-util", "io-std", "macros", "rt-multi-thread", "sync", "fs"] }
log = "0.4"
pretty_env_logger = "0.4"
once_cell = "1"
async-trait = "0.1"
futures = "0.3"
