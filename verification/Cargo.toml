[package]
name = "daybreak"
version = "0.1.0"
edition = "2021"
publish = false

[dependencies]
protobuf = "=3.7.2"
ssh2 = "=0.9.6"
termion = "=4.0.6"
crossterm = "=0.28.1"
ratatui = "=0.29.0"
signal-hook = "=0.3.18"
rust-ini = "=0.21.3"
linked-hash-map = "=0.5.6"
rodio = "=0.20.1"
cpal = "=0.15.3"
gilrs = { version = "=0.11.2", default-features = false, features = ["xinput"] }
