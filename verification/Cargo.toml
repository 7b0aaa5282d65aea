[package]
name = "vhost-user-fs"
version = "0.1.0"
edition = "2021"
publish = false

[dependencies]
displaydoc = "=0.2.7"
libc = "=0.2.191"
memfd = "=0.6.6"
serde = { version = "=1.0.229", features = ["derive"] }
serde_json = "=1.0.154"
thiserror = "=2.0.21"
vhost = { version = "=0.17.0", features = ["vhost-user-frontend"] }
vmm-sys-util = "=0.15.0"

[dev-dependencies]
bitcode = { version = "=0.6.9", features = ["serde"] }
