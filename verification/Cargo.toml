[package]
name = "httpie"
version = "0.1.0"
edition = "2021"
publish = false

[dependencies]
url = "2"
mime = "0.3"
syntect = { version = "5", default-features = false, features = ["default-fancy"] }
rand = "0.8"
reqwest = { version = "0.12", default-features = false }
tokio = { version = "1", features = ["macros", "rt-multi-thread"] }
clap = { version = "4", features = ["derive"] }
anyhow = "1"
