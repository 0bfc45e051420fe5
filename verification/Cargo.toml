[package]
name = "tgreddit"
version = "0.3.0"
edition = "2021"
publish = false

[dependencies]
anyhow = "=1.0.104"
chrono = "=0.4.45"
dptree = "=0.3.0"
duct = "=0.13.7"
env_logger = "=0.10.2"
getopts = "=0.2.24"
itertools = "=0.10.5"
log = "=0.4.34"
regex = "=1.13.1"
reqwest = { version = "=0.11.27", default-features = false, features = ["json", "rustls-tls"] }
rusqlite = { version = "=0.29.0", features = ["bundled", "chrono"] }
rusqlite_migration = "=1.0.2"
secrecy = { version = "=0.8.0", features = ["serde"] }
serde = { version = "=1.0.229", features = ["derive"] }
serde_json = "=1.0.154"
signal-hook = "=0.3.18"
takecell = "=0.1.1"
teloxide = { version = "=0.12.2", default-features = false, features = ["macros", "rustls", "ctrlc_handler"] }
tempfile = "=3.27.0"
thiserror = "=1.0.69"
tokio = { version = "=1.54.1", features = ["full"] }
toml = "=0.5.11"
url = "=2.5.8"
xdg = "=2.5.2"
