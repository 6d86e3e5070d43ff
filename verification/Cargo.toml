[package]
name = "vr_launcher"
version = "0.1.0"
edition = "2021"
publish = false

[dependencies]
anyhow = "1"
async-trait = "0.1"
axum = { version = "0.8", features = ["ws"] }
axum-extra = { version = "0.10", features = ["typed-header"] }
byteorder = "1"
chrono = "0.4"
diesel = { version = "2", features = ["sqlite"] }
dotenvy = "0.15"
flate2 = "1"
futures-util = "0.3"
gtk = "0.18"
image = { version = "0.25", default-features = false, features = ["png"] }
libc = "0.2"
nix = { version = "*", features = ["signal", "fs", "process"] }
pipewire = "*"
regex = "1"
serde = { version = "1", features = ["derive"] }
serde_json = "1"
steamlocate = "*"
sysinfo = "*"
tar = "0.4"
tokio = { version = "1", features = ["full"] }
tower-http = { version = "*", features = ["cors", "set-header"] }
tray-icon = "*"
udev = "*"
uuid = { version = "1", features = ["v4"] }
vdf-reader = "*"
which = "*"
