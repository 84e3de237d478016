[package]
name = "tiny_dfr"
version = "0.1.0"
edition = "2021"
publish = false

[dependencies]
anyhow = "1"
cairo-rs = "*"
drm = "*"
input = "*"
input-linux = "*"
input-linux-sys = "*"
libc = "0.2"
librsvg = "*"
nix = "*"
privdrop = "*"
serde = { version = "1", features = ["derive"] }
toml = "*"
