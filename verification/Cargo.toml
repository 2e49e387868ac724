[package]
name = "subquery_cli"
version = "0.1.0"
edition = "2021"
publish = false

[dependencies]
serde_json = "*"
serde = { version = "*", features = ["derive"] }
chrono = { version = "*", features = ["serde"] }
reqwest = { version = "0.12", default-features = false, features = ["json", "rustls-tls"] }
tokio = { version = "*", features = ["rt-multi-thread", "macros", "time"] }
structopt = "*"
strum = { version = "*", features = ["derive"] }
thiserror = "*"
dirs = "*"
term-table = "*"
colored = "*"
requestty = "*"
serde_with = "*"
color-eyre = "*"
tracing = "*"
tracing-subscriber = { version = "*", features = ["env-filter"] }
