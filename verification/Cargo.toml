[package]
name = "vibecast"
version = "0.1.0"
edition = "2021"
publish = false

[dependencies]
serde_json = "=1.0.151"
unicode-width = "=0.2.2"
anyhow = "=1.0.104"
crossterm = "=0.29.0"
directories = "=6.0.0"
image = { version = "=0.25.10", default-features = false, features = ["png", "jpeg"] }
ratatui = "=0.30.2"
ratatui-image = { version = "=11.1.0", default-features = false, features = ["crossterm"] }
reqwest = { version = "=0.13.5", default-features = false, features = ["json"] }
serde = { version = "=1.0.229", features = ["derive"] }
tokio = { version = "=1.53.2", features = ["rt-multi-thread", "macros", "net", "process", "io-util", "time", "sync", "fs"] }
