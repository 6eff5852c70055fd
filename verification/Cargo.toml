[package]
name = "trpg_json_core"
version = "0.1.0"
edition = "2021"
publish = false

[dependencies]
clap = { version = "4", features = ["derive"] }
dirs = "*"
reqwest = { version = "0.12", default-features = false, features = ["blocking", "json"] }
serde = { version = "1", features = ["derive"] }
serde_json = "1"
tiny_http = "0.12"
toml = "*"
url = "=2.5.8"
urlencoding = "=2.1.3"
uuid = { version = "1", features = ["v4"] }
webbrowser = "*"
zip = { version = "=0.6.6", default-features = false }
