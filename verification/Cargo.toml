[package]
name = "pipewire-yolo-client"
version = "0.1.0"
edition = "2021"
publish = false

[dependencies]
bytes = "1"
uuid = { version = "1", features = ["v4"] }
drm-fourcc = "2"
zbus = { version = "5", default-features = false, features = ["tokio"] }
tokio = { version = "1", features = ["full"] }
tokio-stream = "0.1"
tokio-util = "0.7"
serde_json = "1"
pipewire = "0.9"
libc = "0.2"
dma-buf = "*"
wayland-client = "0.31"
bitflags = "2"
