[package]
name = "oggfetch"
version = "0.1.0"
edition = "2021"
publish = false

[dependencies]
indexmap = "1"
linear-map = "1"
regex = "1"
sanitize-filename = "0.2"
librespot-core = "0.2"
librespot-audio = "0.2"
librespot-metadata = "0.2"
tokio = { version = "1", features = ["rt", "time"] }
scoped_threadpool = "0.1"
env_logger = "0.9"
log = "0.4"
