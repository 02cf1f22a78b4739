[package]
name = "vhost-device-input"
version = "0.1.0"
edition = "2021"
publish = false

[dependencies]
clap = { version = "=4.6.7", features = ["derive"] }
env_logger = "=0.10.2"
evdev = "=0.12.2"
libc = "=0.2.191"
log = "=0.4.35"
nix = "=0.26.4"
vhost = { version = "0.8", features = ["vhost-user-slave"] }
vhost-user-backend = "0.10"
virtio-bindings = "=0.2.7"
virtio-queue = "0.9"
vm-memory = { version = "0.12", features = ["backend-mmap", "backend-atomic"] }
vmm-sys-util = "0.11"
