[package]
name = "tray_weather"
version = "0.1.0"
edition = "2021"
publish = false

[dependencies]
auto-launch = "=0.5.0"
chrono = "=0.4.45"
directories = "=5.0.1"
env_logger = "=0.11.11"
image = { version = "=0.25.10", default-features = false, features = ["ico"] }
log = "=0.4.34"
reqwest = { version = "=0.12.28", default-features = false, features = ["json", "rustls-tls"] }
rust-embed = { version = "=8.13.0", features = ["include-exclude"] }
rust-i18n = "=3.1.2"
serde = { version = "=1.0.229", features = ["derive"] }
sys-locale = "=0.3.2"
tokio = { version = "=1.54.1", features = ["macros", "rt-multi-thread", "sync", "time"] }
toml = "=0.8.2"
tray-icon = "=0.19.3"
url = "=2.5.8"

[dev-dependencies]
serde_json = "=1.0.154"
