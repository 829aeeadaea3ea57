[package]
name = "bcnotif"
version = "0.1.0"
edition = "2021"
publish = false

[dependencies]
chrono = "*"
attohttpc = { version = "*", default-features = false }
notify-rust = "*"
diesel = { version = "*", default-features = false, features = ["sqlite"] }
libsqlite3-sys = { version = "*", features = ["bundled"] }
pico-args = "*"
toml = "*"
serde = { version = "*", features = ["derive"] }
dirs-next = "*"
nix = { version = "*", features = ["signal"] }
libc = "*"
once_cell = "*"
parking_lot = "*"
anyhow = "*"
