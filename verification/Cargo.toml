[package]
name = "teil_ing"
version = "0.1.0"
edition = "2021"
publish = false

[dependencies]
anyhow = "1"
base64 = "0.22"
chrono = "0.4"
futures-util = { version = "0.3", default-features = false, features = ["std"] }
image = { version = "0.25", default-features = false, features = ["png"] }
keyring = { version = "3", default-features = false }
rand = "0.8"
reqwest = { version = "0.12", default-features = false, features = ["json", "multipart", "stream"] }
serde = { version = "1", features = ["derive"] }
serde_json = "1"
sha2 = "0.10"
tokio = { version = "1", default-features = false, features = ["fs", "rt", "time"] }
tokio-util = { version = "0.7", default-features = false, features = ["io"] }
url = "2"
whoami = { version = "1", default-features = false }
windows = { version = "0.61", default-features = false }
winreg = "0.55"
xcap = { version = "0.9", default-features = false }
