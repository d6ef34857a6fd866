[package]
name = "telemt_admin"
version = "0.1.0"
edition = "2021"
publish = false

[dependencies]
urlencoding = "=2.1.3"
chrono = { version = "=0.4.45", default-features = false, features = ["clock", "std"] }
serde = { version = "=1.0.229", features = ["derive"] }
serde_json = "=1.0.154"
toml = "=0.8.23"
clap = { version = "=4.6.7", features = ["derive"] }
tokio = { version = "=1.54.1", features = ["rt-multi-thread", "macros", "time", "process"] }
reqwest = { version = "=0.12.28", default-features = false, features = ["json"] }
teloxide = { version = "=0.13.0", default-features = false, features = ["ctrlc_handler"] }
takecell = ">=0.1.0, <0.1.2"
anyhow = "=1.0.104"
thiserror = "=1.0.69"
tracing = "=0.1.44"
tracing-subscriber = { version = "=0.3.23", features = ["env-filter"] }
rand = "0.9"
qrcode = "0.14"
image = { version = "0.25", default-features = false, features = ["png"] }
