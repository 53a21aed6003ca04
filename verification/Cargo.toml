[package]
name = "apcs_tester"
version = "0.1.0"
edition = "2021"
publish = false

[dependencies]
imara-diff = "*"
clap = { version = "*", features = ["derive"] }
serde = { version = "*", features = ["derive"] }
serde_json = "*"
toml = "*"
tokio = { version = "*", features = ["rt-multi-thread", "sync", "process", "time", "macros", "io-util"] }
nix = { version = "*", features = ["signal"] }
log = "*"
regex = "*"
walkdir = "*"
zip = { version = "*", default-features = false }
indicatif = "*"
