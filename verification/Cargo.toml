[package]
name = "mpi2p"
version = "0.1.0"
edition = "2021"
publish = false

[dependencies]
chrono = "0.4"
clap = { version = "4", features = ["derive"] }
diesel = { version = "2", features = ["postgres"] }
diqwest = "1"
env_logger = "0.10"
hex = "0.4"
hmac = "0.12"
jwt = "0.16"
lmdb-rs = "0.7"
log = "0.4"
rand = "0.8"
rand_core = "0.6"
reqwest = { version = "0.11", features = ["json"] }
rocket = { version = "0.5", features = ["json"] }
serde = { version = "1", features = ["derive"] }
sha2 = "0.10"
tokio = { version = "1", features = ["full"] }
