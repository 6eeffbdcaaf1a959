[package]
name = "bugstalker_dap"
version = "0.1.0"
edition = "2021"
publish = false

[dependencies]
anyhow = "1"
async-trait = "0.1"
chumsky = "*"
log = "0.4"
nix = { version = "*", features = ["signal", "process"] }
object = "*"
serde_json = "1"
tokio = { version = "1", features = ["rt-multi-thread", "sync", "io-std", "io-util"] }
