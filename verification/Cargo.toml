[package]
name = "clipship"
version = "0.1.0"
edition = "2021"
publish = false

[dependencies]
chrono = "0.4"
rand = "0.8"
sha2 = "0.10"
global-hotkey = "0.6"
serde = { version = "1", features = ["derive"] }
serde_json = "1"
tokio = { version = "1", features = ["process", "time", "rt", "macros", "sync"] }
async-trait = "0.1"
anyhow = "1"
thiserror = "1"
clipboard-rs = "0.2"
enigo = "0.2"

[dev-dependencies]
regex = "1"
