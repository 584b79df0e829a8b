[package]
name = "last_of_pipisenok"
version = "0.1.0"
edition = "2021"
publish = false

[dependencies]
bevy = { version = "0.14", default-features = false, features = ["bevy_asset", "bevy_state", "bevy_color"] }
bevy_rapier2d = { version = "0.27", default-features = false, features = ["dim2"] }
rand = "0.8"
