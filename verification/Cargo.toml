[package]
name = "sshn"
version = "0.1.0"
edition = "2021"
publish = false

[dependencies]
base64 = "0.22"
chrono = { version = "0.4", features = ["serde"] }
rand = "0.8"
serde_urlencoded = "0.7"
sha2 = "0.10"
url = "2"
async-trait = "0.1"
clap = { version = "4", features = ["derive"] }
colored = "2"
env_logger = "0.10"
fantoccini = "0.19"
keyring = "2"
log = "0.4"
prettytable-rs = "0.10"
reqwest = { version = "0.11", features = ["json"] }
rpassword = "7"
serde = { version = "1", features = ["derive"] }
serde_json = "1"
thiserror = "1"
tokio = { version = "1", features = ["full"] }
whoami = "1"
