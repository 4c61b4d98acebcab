[package]
name = "astro_bevy"
version = "0.1.0"
edition = "2021"
publish = false

[dependencies]
rand = "0.8"
bevy = { version = "0.8", default-features = false, features = ["bevy_asset", "bevy_core_pipeline", "bevy_render", "bevy_sprite", "bevy_winit", "png", "x11"] }
bevy_rapier2d = { version = "0.16", default-features = false, features = ["dim2"] }
bevy_ecs_ldtk = "0.4"
