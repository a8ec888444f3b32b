[package]
name = "overlay_controller"
version = "0.1.0"
edition = "2021"
publish = false

[dependencies]
serde_json = "1"
serde = { version = "1", features = ["derive"] }
reqwest = { version = "0.12", features = ["json"] }
tokio = { version = "1", features = ["rt-multi-thread"] }
log = "0.4"
cocoa = "0.26"
objc = "0.2"
block = "0.1"
