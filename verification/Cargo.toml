[package]
name = "vm_autoscaler"
version = "0.1.0"
edition = "2021"
publish = false

[dependencies]
virt = "=0.4.3"
virt-sys = "=0.3.1"
sysinfo = "=0.39.6"
ctrlc = "=3.5.2"
csv = "=1.4.0"
serde = { version = "=1.0.229", features = ["derive"] }
