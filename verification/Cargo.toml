[package]
name = "spring_initializr_cli"
version = "0.1.0"
edition = "2021"
publish = false

[dependencies]
colored = "*"
dialoguer = "*"
inquire = "*"
reqwest = { version = "*", default-features = false, features = ["blocking", "json", "rustls-tls"] }
serde = { version = "*", features = ["derive"] }
serde_json = "*"
termion = "*"
