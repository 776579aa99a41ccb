[package]
name = "wangan_arcade_loader"
version = "0.1.0"
edition = "2021"
publish = false

[dependencies]
libc = "=0.2.191"
retour = "=0.3.1"
region = "=3.0.2"
sdl2 = "=0.37.0"
device_query = "=2.1.0"
glfw = { version = "=0.55.0", default-features = false }
gl = "=0.14.0"
glob = "=0.3.4"
local-ip-address = "=0.6.13"
toml = "=0.8.23"
serde = { version = "=1.0.229", features = ["derive"] }
ctor = "=0.2.9"
