[package]
name = "ydict"
version = "0.1.0"
edition = "2021"
publish = false

[dependencies]
quick-xml = "*"
url = "*"
clap = { version = "*", features = ["derive"] }
console = "*"
reqwest = { version = "*", default-features = false, features = ["blocking"] }
