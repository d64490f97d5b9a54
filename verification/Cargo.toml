[package]
name = "launchit"
version = "0.1.0"
edition = "2021"
publish = false

[dependencies]
tui-textarea = "=0.6.1"
glob = "=0.3.4"
dirs = "=7.0.0"
crossterm = "0.28"
ratatui = "0.28"
anyhow = "1"
libc = "0.2"
plist = "1"
serde = { version = "1", features = ["derive"] }
