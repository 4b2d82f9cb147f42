[package]
name = "iced_plugins"
version = "0.1.0"
edition = "2021"
publish = false

[dependencies]
iced = { version = "=0.14.0", default-features = false, features = ["tokio", "x11", "sipper"] }
tokio = { version = "=1.54.1", features = ["fs", "process", "time", "io-util", "rt", "rt-multi-thread"] }
serde = { version = "=1.0.229", features = ["derive"] }
serde_json = "=1.0.154"
sha2 = "=0.10.9"
hex = "=0.4.3"
directories = "=6.0.0"
futures-util = "=0.3.34"
reqwest = { version = "=0.13.5", default-features = false, features = ["json", "stream"] }
libc = "=0.2.191"
tray-icon = "*"
image = { version = "*", default-features = false, features = ["png"] }
gtk = "*"

[dev-dependencies]
iced_runtime = "=0.14.0"
futures = "=0.3.34"
