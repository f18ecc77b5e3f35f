[package]
name = "clu"
version = "0.1.0"
edition = "2021"
publish = false

[dependencies]
regex = "=1.13.1"
levenshtein = "=1.0.5"
subtle = "=2.6.1"
serde = { version = "=1.0.229", features = ["derive"] }
serde_json = "=1.0.154"
toml = "=1.1.8"
chrono = "=0.4.45"
log = "=0.4.35"
clap = { version = "=4.6.7", features = ["cargo"] }
owo-colors = "=4.4.0"
url = "=2.5.8"
rss = "=2.1.2"
walkdir = "=2.5.0"
tempfile = "=3.27.0"
flate2 = "=1.1.10"
tar = "=0.4.46"
zip = { version = "=9.2.2", default-features = false, features = ["deflate"] }
rand = "=0.8.8"
dialoguer = "=0.12.0"
thiserror = "=2.0.21"
parking_lot = "=0.13.0"
tokio = { version = "=1.54.1", features = ["rt-multi-thread", "macros", "time", "fs", "net"] }
reqwest = { version = "=0.12.28", default-features = false, features = ["json", "rustls-tls"] }
axum = "=0.8.9"
tower-http = { version = "=0.7.1", features = ["cors", "fs"] }
sqlx = { version = "=0.8.6", default-features = false, features = ["sqlite", "runtime-tokio"] }
ollama-rs = { version = "=0.3.6", default-features = false, features = ["rustls"] }
yara-x = { version = "*", default-features = false }
