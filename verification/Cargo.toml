[package]
name = "esp_hal"
version = "0.1.0"
edition = "2021"
publish = false

[dependencies]
fugit = "=0.3.9"
linked_list_allocator = { version = "=0.10.6", default-features = false }
log = "=0.4.35"
