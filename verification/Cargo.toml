[package]
name = "captive_portal"
version = "0.1.0"
edition = "2021"
publish = false

[dependencies]
iron = "*"
iron-cors = "*"
mount = "*"
params = "*"
persistent = "*"
router = "*"
staticfile = "*"

[dev-dependencies]
serde_json = "*"
