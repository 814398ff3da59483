[package]
name = "quickwhisper"
version = "0.1.0"
edition = "2021"
publish = false

[dependencies]
anyhow = "=1.0.104"
clap = { version = "=4.6.7", features = ["derive"] }
cpal = "=0.18.2"
directories = "=6.0.0"
evdev = "=0.13.2"
hound = "=3.5.1"
notify-rust = "=4.18.2"
rubato = "=0.16.2"
rusqlite = { version = "=0.41.1", features = ["bundled"] }
serde = { version = "=1.0.229", features = ["derive"] }
toml = "=1.1.8"
tracing = "=0.1.44"
tracing-subscriber = { version = "=0.3.23", features = ["env-filter"] }
ureq = "=3.5.1"
whisper-rs = "=0.16.0"
wl-clipboard-rs = "=0.9.5"
zbus = "=5.19.0"
