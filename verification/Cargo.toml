[package]
name = "headlines"
version = "0.1.0"
edition = "2021"
publish = false

[dependencies]
url = "*"
serde = { version = "*", features = ["derive"] }
reqwest = { version = "*", default-features = false, features = ["blocking", "json"] }
thiserror = "*"
tracing = "*"
tracing-subscriber = "*"
eframe = { version = "*", default-features = false, features = ["glow", "x11", "default_fonts"] }
image = { version = "*", default-features = false, features = ["png"] }
