[package]
name = "mokareads_core"
version = "0.1.0"
edition = "2021"
publish = false

[dependencies]
chrono = "*"
serde = { version = "*", features = ["derive"] }
serde_json = "*"
serde_yaml = "*"
pulldown-cmark = "*"
rss = "*"
reqwest = { version = "*", default-features = false, features = ["json", "rustls-tls"] }
tokio = { version = "*", features = ["fs", "io-util", "rt", "macros"] }
rocket = "*"
pandoc = "*"
futures = "*"
once_cell = "*"
rust_decimal = "*"
