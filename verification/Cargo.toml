[package]
name = "check_updates"
version = "0.1.0"
edition = "2021"
publish = false

[dependencies]
anyhow = "*"
chrono = "*"
clap = { version = "*", features = ["derive"] }
fs2 = "*"
futures = "*"
signal-hook = "*"
signal-hook-tokio = { version = "*", features = ["futures-v0_3"] }
tokio = { version = "*", features = ["macros", "rt-multi-thread", "time", "sync"] }
zbus = { version = "*", default-features = false, features = ["tokio"] }
