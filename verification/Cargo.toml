[package]
name = "mwm"
version = "0.1.0"
edition = "2021"
publish = false

[dependencies]
anyhow = "*"
chrono = "*"
serde = { version = "*", features = ["derive"] }
systemstat = "*"
thiserror = "*"
tokio = { version = "*", features = ["macros", "rt-multi-thread", "sync", "time"] }
toml = "*"
tracing = "*"
whoami = "*"
x11 = "*"
xcb = "*"
xcursor = "*"
