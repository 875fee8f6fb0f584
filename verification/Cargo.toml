[package]
name = "papers_plz"
version = "0.1.0"
edition = "2021"
publish = false

[dependencies]
rand = "0.8"
colored = "*"
reqwest = { version = "*", default-features = false, features = ["blocking", "json"] }
rustyline = "*"
serde = { version = "*", features = ["derive"] }
