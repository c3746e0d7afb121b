[package]
name = "neurontrace"
version = "0.1.0"
edition = "2021"
publish = false

[dependencies]
globset = "0.4"
serde = { version = "1", features = ["derive"] }
serde_yaml = "0.9"
serde_json = "1"
clap = { version = "4", features = ["derive"] }
anyhow = "1"
aya = "0.13"
tokio = { version = "1", features = ["macros", "rt-multi-thread", "time"] }
tracing = "0.1"
tracing-subscriber = { version = "0.3", features = ["env-filter"] }
nix = { version = "*", features = ["signal"] }
libc = "0.2"
