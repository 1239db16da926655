[package]
name = "rculock"
version = "0.1.0"
edition = "2021"
publish = false

[dependencies]
coco = "*"
parking_lot = "*"
