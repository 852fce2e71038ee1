[package]
name = "garlock"
version = "0.1.0"
edition = "2021"
publish = false

[dependencies]
zeroize = "=1.9.1"
serde = { version = "=1.0.229", features = ["derive"] }
serde_json = "=1.0.154"
toml = "=0.8.2"
dirs = "=5.0.1"
users = "=0.11.0"
chrono = "=0.4.45"
clap = { version = "=4.6.7", features = ["derive"] }
ctrlc = "=3.5.2"
tracing = "=0.1.44"
tracing-subscriber = { version = "=0.3.23", features = ["env-filter"] }
x11rb = { version = "=0.13.2", features = ["randr"] }
xkbcommon = "=0.7.0"
pam = "0.8"
image = { version = "=0.25.10", default-features = false }
cairo-rs = "=0.18.5"
pango = "=0.18.3"
pangocairo = "=0.18.0"
anyhow = "=1.0.104"
thiserror = "=1.0.69"
