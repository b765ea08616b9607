[package]
name = "clipstash"
version = "0.1.0"
edition = "2021"
publish = false

[dependencies]
base64 = "0.13"
chrono = { version = "0.4", features = ["serde"] }
derive_more = "0.99"
handlebars = { version = "4", features = ["dir_source"] }
rand = "0.8"
reqwest = { version = "0.11", default-features = false, features = ["blocking", "json"] }
rocket = { version = "0.5", features = ["json"] }
serde = { version = "1", features = ["derive"] }
serde_json = "1"
sqlx = { version = "0.8", default-features = false, features = ["sqlite", "runtime-tokio", "chrono", "migrate"] }
structopt = "0.3"
thiserror = "1"
tokio = { version = "1", features = ["rt-multi-thread", "time"] }
uuid = { version = "0.8", features = ["serde", "v4"] }
