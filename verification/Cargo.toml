[package]
name = "road_intersection"
version = "0.1.0"
edition = "2021"
publish = false

[dependencies]
rand = "=0.8.8"
macroquad = "=0.4.16"
throttle_my_fn = "=0.2.6"
parking_lot = "=0.11.2"
