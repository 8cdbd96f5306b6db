[package]
name = "flecs_ecs"
version = "0.1.0"
edition = "2021"
publish = false

[dependencies]
flecs_ecs_sys = { version = "=0.2.1", default-features = false, features = ["flecs_alerts"] }
