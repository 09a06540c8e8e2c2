[package]
name = "disk_cleaner"
version = "0.1.0"
edition = "2021"
publish = false

[dependencies]
chrono = "0.4"
clap = "4"
colored = "2"
cron = "0.12"
dialoguer = "0.11"
dirs = "5"
indicatif = "0.17"
prettytable-rs = "0.10"
rand = "0.8"
rayon = "1"
regex = "1"
terminal_size = "0.3"
tokio = { version = "1", features = ["full"] }
walkdir = "2"
