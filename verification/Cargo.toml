[package]
name = "rustops"
version = "0.1.4"
edition = "2021"
publish = false

[dependencies]
serde_json = "=1.0.154"
serde = { version = "=1.0.229", features = ["derive"] }
thiserror = "=2.0.21"
reqwest = { version = "=0.12.28", default-features = false, features = ["blocking", "json", "rustls-tls"] }
eframe = { version = "=0.31.1", default-features = false, features = ["glow", "x11", "default_fonts"] }
egui_commonmark = { version = "=0.20.0", default-features = false, features = ["pulldown_cmark"] }
image = { version = "=0.25.10", default-features = false, features = ["png"] }
webbrowser = "1"
