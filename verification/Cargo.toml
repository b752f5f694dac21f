[package]
name = "gtkspot"
version = "0.1.0"
edition = "2021"
publish = false

[dependencies]
reqwest = { version = "=0.13.5", default-features = false, features = ["blocking", "json"] }
serde = { version = "=1.0.229", features = ["derive"] }
serde_json = "=1.0.154"
keyring = "=4.2.0"
librespot-core = "=0.4.2"
librespot-protocol = "=0.4.2"
chrono = "=0.4.45"
fern = "=0.7.1"
log = "=0.4.35"
