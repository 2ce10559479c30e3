[package]
name = "utapi_rs"
version = "0.1.0"
edition = "2021"
publish = false

[dependencies]
anyhow = "1"
filesize = "0.2"
futures = "0.3"
mime_guess = "2"
rand = "0.8"
reqwest = { version = "0.12", default-features = false, features = ["json", "multipart"] }
serde = { version = "1", features = ["derive"] }
serde_json = "1"
tokio = { version = "1", default-features = false, features = ["rt", "macros", "signal", "time"] }
