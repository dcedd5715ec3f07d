[package]
name = "kvserver"
version = "0.1.0"
edition = "2021"
publish = false

[dependencies]
chashmap = "=2.2.2"
jsonwebtoken = { version = "=11.1.0", features = ["rust_crypto"] }
serde_json = "=1.0.151"
chrono = "=0.4.45"
ring = "=0.17.14"
rand = "=0.10.3"
warp = { version = "=0.4.3", features = ["server"] }
tokio = { version = "=1.53.2", features = ["macros", "rt-multi-thread"] }
serde = { version = "=1.0.229", features = ["derive"] }
serde_yaml = "=0.9.34"
clap = { version = "=4.6.7", features = ["derive"] }
log = "=0.4.34"
snafu = "=0.9.2"
