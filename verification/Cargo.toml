[package]
name = "niri"
version = "0.1.0"
edition = "2021"
publish = false

[dependencies]
anyhow = "1"
async-channel = "2"
bitflags = "2"
calloop = "*"
clap = { version = "4", features = ["derive"] }
knus = "*"
libc = "0.2"
miette = "*"
png = "*"
smithay = { version = "*", default-features = false, features = ["desktop", "wayland_frontend"] }
tracing = "0.1"
tracing-subscriber = { version = "0.3", features = ["env-filter"] }
xdg = "*"
