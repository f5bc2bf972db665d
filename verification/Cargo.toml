[package]
name = "opm"
version = "0.1.0"
edition = "2021"
publish = false

[dependencies]
anyhow = "1"
chrono = "0.4"
colored = "2"
global_placeholders = "*"
log = "0.4"
macros-rs = "*"
once_cell = "1"
reqwest = { version = "0.11", default-features = false, features = ["blocking", "json"] }
ron = "0.8"
serde = { version = "1", features = ["derive"] }
serde_json = "1"
