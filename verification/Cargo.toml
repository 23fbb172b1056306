[package]
name = "hvertex"
version = "0.1.0"
edition = "2021"
publish = false

[dependencies]
serde_json = "*"
base64 = "*"
serde = { version = "*", features = ["derive"] }
anyhow = "*"
thiserror = "*"
colored = "*"
dotenv = "*"
reqwest = { version = "*", default-features = false, features = ["blocking", "json"] }
tokio = { version = "*", features = ["rt-multi-thread", "macros", "time", "sync"] }
