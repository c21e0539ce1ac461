[package]
name = "juhradiald"
version = "0.1.0"
edition = "2021"
publish = false

[dependencies]
clap = { version = "=4.6.7", features = ["derive"] }
dirs = "=7.0.0"
evdev = { version = "=0.13.2", features = ["tokio"] }
libc = "=0.2.191"
serde = { version = "=1.0.229", features = ["derive"] }
serde_json = "=1.0.154"
tempfile = "=3.27.0"
tokio = { version = "=1.54.1", features = ["macros", "rt-multi-thread", "signal", "sync", "time"] }
tracing = "=0.1.44"
tracing-subscriber = "=0.3.23"
zbus = { version = "=6.1.0", default-features = false, features = ["service", "tokio"] }
