[package]
name = "mpris_discord_rpc"
version = "0.1.0"
edition = "2021"
publish = false

[dependencies]
discord-rich-presence = "*"
mpris = "*"
pickledb = "*"
reqwest = { version = "*", default-features = false, features = ["blocking"] }
serde_json = "*"
url-escape = "*"
