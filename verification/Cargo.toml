[package]
name = "waifu"
version = "0.1.0"
edition = "2021"
publish = false

[dependencies]
clap = { version = "=4.6.7", features = ["derive"] }
colored = "=2.2.0"
image = "=0.25.10"
is-terminal = "=0.4.17"
rand = "=0.8.8"
regex = "=1.13.1"
reqwest = { version = "=0.12.28", features = ["blocking"] }
serde_json = "=1.0.154"
viuer = { version = "=0.11.0", features = ["print-file"] }
