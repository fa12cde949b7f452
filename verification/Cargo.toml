[package]
name = "dockerdeploy"
version = "0.1.0"
edition = "2021"
publish = false

[dependencies]
anyhow = "=1.0.104"
async-trait = "=0.1.92"
bollard = "=0.21.1"
env_logger = "=0.11.11"
futures-util = "=0.3.34"
log = "=0.4.34"
notify = "=8.2.0"
serde = { version = "=1.0.229", features = ["derive"] }
structopt = "=0.3.26"
tokio = { version = "=1.53.2", features = ["rt-multi-thread", "macros", "sync", "time"] }
toml = "=1.1.6"
warp = { version = "=0.4.3", features = ["server"] }
