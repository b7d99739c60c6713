[package]
name = "lyria_studio"
version = "0.1.0"
edition = "2021"
publish = false

[dependencies]
base64 = "=0.23.1"
serde_json = "=1.0.151"
tempfile = "=3.27.0"
mp3lame-encoder = "=0.2.5"
serde = { version = "=1.0.229", features = ["derive"] }
tokio = { version = "=1.53.2", features = ["rt-multi-thread", "sync", "macros", "time"] }
tokio-tungstenite = "=0.30.0"
futures-util = "=0.3.34"
rodio = { version = "=0.22.2", default-features = false, features = ["playback"] }
aes-gcm = "=0.11.1"
rand = "=0.10.3"
hex = "=0.4.3"
dirs = "=7.0.0"
urlencoding = "=2.1.3"

[dev-dependencies]
hound = "=3.5.1"
