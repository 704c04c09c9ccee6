[package]
name = "inferi"
version = "0.1.0"
edition = "2021"
publish = false

[dependencies]
bevy = { version = "=0.12.1", default-features = false }
bevy_ggrs = "=0.14.0"
bevy_xpbd_2d = { version = "=0.3.3", default-features = false, features = ["2d", "f32"] }
clap = { version = "=4.6.7", features = ["derive", "env"] }
ggrs = "=0.10.2"
matchbox_protocol = "0.8"
serde = { version = "=1.0.229", features = ["derive"] }
