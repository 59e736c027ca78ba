[package]
name = "city_gen"
version = "0.1.0"
edition = "2021"
publish = false

[dependencies]
bevy = { version = "=0.19.1", default-features = false, features = ["default_app", "3d_bevy_render", "ui_api", "ui_bevy_render", "scene", "bevy_picking", "ui_picking", "std", "multi_threaded", "default_font", "bevy_feathers", "bevy_camera_controller", "free_camera", "bevy_dev_tools"] }
noise = "=0.9.0"
rand = "=0.10.3"
