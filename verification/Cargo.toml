[package]
name = "dashtui"
version = "0.1.0"
edition = "2021"
publish = false

[dependencies]
scraper = "0.20"
clap = { version = "4", features = ["derive"] }
colored = "2"
crossterm = "0.28"
ratatui = "0.29"
rusqlite = { version = "0.32", features = ["bundled"] }
dirs = "5"
arboard = { version = "3", default-features = false }
git2 = { version = "0.19", default-features = false }
ureq = "2"
thiserror = "2"
