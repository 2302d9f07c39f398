[package]
name = "shears"
version = "0.1.0"
edition = "2021"
publish = false

[dependencies]
humansize = "=2.1.3"
microjson = "=0.1.6"
catppuccin-egui = { version = "=5.7.0", default-features = false, features = ["egui32"] }
directories = "=6.0.0"
eframe = { version = "=0.32.3", default-features = false, features = ["glow", "default_fonts", "x11"] }
egui = "=0.32.3"
log = "=0.4.34"
minreq = "=2.14.1"
open = "=5.4.5"
rfd = "=0.15.4"
serde = { version = "=1.0.229", features = ["derive"] }
sysinfo = { version = "=0.33.1", default-features = false, features = ["system"] }
toml = "=0.9.12"
win-msgbox = "=0.2.2"
