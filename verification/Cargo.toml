[package]
name = "rsys_cli"
version = "0.1.0"
edition = "2021"
publish = false

[dependencies]
anyhow = "1"
rsys = "*"
structopt = "0.3"
termion = "1.5"
tui = { version = "*", default-features = false, features = ["termion"] }
