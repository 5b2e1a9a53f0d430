[package]
name = "session_watch"
version = "0.1.0"
edition = "2021"
publish = false

[dependencies]
serde_json = "=1.0.151"
regex = "=1.13.1"
serde = { version = "=1.0.229", features = ["derive"] }
actix-web = { version = "=4.15.0", default-features = false, features = ["macros"] }
awc = { version = "=3.8.2", default-features = false }
dotenv = "=0.15.0"
tracing = "=0.1.44"
tracing-appender = "=0.2.5"
tracing-subscriber = "=0.3.23"
windows = { version = "=0.48.0", features = ["Win32_Foundation", "Win32_System_RemoteDesktop"] }
