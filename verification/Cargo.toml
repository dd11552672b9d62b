[package]
name = "bootstrapper"
version = "0.1.0"
edition = "2021"
publish = false

[dependencies]
zip = { version = "=8.6.0", default-features = false, features = ["deflate"] }
anyhow = "=1.0.104"
reqwest = { version = "=0.13.5", default-features = false, features = ["stream"] }
tokio = { version = "=1.53.2", features = ["macros", "rt-multi-thread", "time"] }
futures-util = "=0.3.34"
indicatif = "=0.18.6"
open = "*"
paris = { version = "=1.5.15", features = ["macros"] }
walkdir = "=2.5.0"
self-replace = "=1.5.0"
figlet-rs = "=1.0.0"
termcolor = "=1.4.1"
