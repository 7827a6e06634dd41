[package]
name = "vortex_client"
version = "0.1.0"
edition = "2021"
publish = false

[dependencies]
bevy_ecs = "=0.18.1"
naia-bevy-client = "=0.25.0"
