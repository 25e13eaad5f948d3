[package]
name = "flitter"
version = "1.0.0"
edition = "2021"
publish = false

[dependencies]
anyhow = "1.0"
clap = { version = "4.0", features = ["derive"] }
crossterm = "0.27"
nix = { version = "0.29", features = ["signal", "process"] }
notify = "6.0"
regex = "1.0"
tokio = { version = "1.0", features = ["full"] }
uuid = { version = "1.0", features = ["v4"] }
