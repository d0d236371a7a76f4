[package]
name = "terrain_editor"
version = "0.1.0"
edition = "2021"
publish = false

[dependencies]
bevy = { version = "=0.7.0", default-features = false, features = ["render", "png"] }
bevy_egui = { version = "=0.14.0", default-features = false }
enum_dispatch = "=0.3.13"
futures-lite = "=1.13.0"
async-channel = "=1.9.0"
bytemuck = { version = "=1.25.2", features = ["derive"] }
byteorder = "=1.5.0"
png = "=0.17.16"
image = { version = "=0.24.9", default-features = false, features = ["png"] }
splines = "=4.4.2"
hashbrown = "=0.11.2"
