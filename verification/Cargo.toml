[package]
name = "anki_bridge"
version = "0.1.0"
edition = "2021"
publish = false

[dependencies]
serde = { version = "=1.0.229", features = ["derive"] }
serde_json = { version = "=1.0.154", features = ["preserve_order"] }
thiserror = "=1.0.69"
ureq = { version = "=2.12.1", default-features = false, features = ["json"] }
reqwest = { version = "=0.11.27", default-features = false, features = ["json", "blocking"] }
