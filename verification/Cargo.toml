[package]
name = "aria2c-gui-rs"
version = "0.1.0"
edition = "2021"
publish = false

[dependencies]
base64 = "0.13"
zip = { version = "0.6", default-features = false, features = ["deflate"] }
serde = "1"
serde_derive = "1"
serde_json = "1"
open = "5"
notify-rust = "4"
rocket = { version = "0.5", features = ["json"] }
rocket_dyn_templates = { version = "0.2", features = ["handlebars"] }
hyper = "0.11"
tokio-core = "0.1"
futures = "0.1"
