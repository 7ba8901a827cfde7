[package]
name = "cook_sync"
version = "0.1.0"
edition = "2021"
publish = false

[dependencies]
keyring = { version = "=3.6.3", default-features = false }
tokio = { version = "*", features = ["rt-multi-thread", "macros", "net", "time", "io-util", "sync"] }
tokio-util = "*"
reqwest = { version = "*", default-features = false, features = ["json"] }
open = "*"
uuid = { version = "*", features = ["v4"] }
serde = { version = "*", features = ["derive"] }
serde_json = "*"
clap = { version = "*", features = ["derive"] }
chrono = "=0.4.45"
dirs = "*"
cooklang-sync-client = "*"
log = "*"

[dev-dependencies]
base64 = "=0.23.1"
