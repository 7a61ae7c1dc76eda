[package]
name = "tileworld"
version = "0.1.0"
edition = "2021"
publish = false

[dependencies]
bevy = { version = "0.9", default-features = false, features = ["bevy_asset", "bevy_core_pipeline", "bevy_render", "bevy_sprite", "bevy_winit", "x11"] }
chrono = { version = "=0.4.45", default-features = false, features = ["std", "clock"] }
clap = { version = "4", features = ["derive"] }
diesel = { version = "2.0", features = ["postgres", "r2d2", "chrono", "uuid"] }
diesel_migrations = "2.0"
dotenv = "0.15"
glob = "0.3"
hashbrown = "=0.13.2"
lazy_static = "1"
noise = { version = "=0.8.2", default-features = false }
rand = "=0.8.8"
serde = { version = "1", features = ["derive"] }
tokio = { version = "=1.54.1", features = ["sync"] }
toml = "0.5"
tracing = "0.1"
uuid = { version = "=1.29.0", features = ["v4"] }
