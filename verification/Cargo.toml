[package]
name = "cmp_tui"
version = "0.1.0"
edition = "2021"
publish = false

[dependencies]
argh = "=0.1.19"
crossterm = "=0.17.7"
mpd = "=0.1.0"
tui = { version = "=0.9.5", default-features = false, features = ["crossterm"] }
