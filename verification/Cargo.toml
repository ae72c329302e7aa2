[package]
name = "mcp_ssh"
version = "0.3.0"
edition = "2021"
publish = false

[dependencies]
aes-gcm = "0.10"
base64 = "0.22"
hex = "0.4"
rand = "0.8"
anyhow = "1"
clap = { version = "4", features = ["derive"] }
directories = "5"
keyring = { version = "3", features = ["linux-native"] }
rusqlite = { version = "0.31", features = ["bundled"] }
serde = { version = "1", features = ["derive"] }
serde_json = "1"
ssh2 = "0.9"
tokio = { version = "1", features = ["macros", "rt-multi-thread", "time"] }
