[package]
name = "canis"
version = "0.1.0"
edition = "2021"
publish = false

[dependencies]
anyhow = "1"
base64 = "0.22"
chrono = "0.4"
clap = { version = "4", features = ["derive"] }
daemonize = "0.5"
dialoguer = "0.11"
directories-next = "2"
fuser = { version = "0.15", default-features = false }
hex = "0.4"
libc = "0.2"
nix = { version = "0.29", features = ["signal"] }
notify = "6"
rusqlite = { version = "0.32", features = ["bundled"] }
serde = { version = "1", features = ["derive"] }
serde_json = "1"
sha2 = "0.10"
signal-hook = "0.3"
sysinfo = "0.33"
toml = "0.8"
ureq = "2"
url = "2"
whoami = "1"
