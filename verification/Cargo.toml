[package]
name = "trackdl"
version = "0.1.0"
edition = "2021"
publish = false

[dependencies]
colored = "=2.2.0"
getopts = "=0.2.24"
librespot-audio = "=0.4.2"
librespot-core = "=0.4.2"
librespot-metadata = "=0.4.2"
librespot-protocol = "=0.4.2"
oggvorbismeta = "=0.1.0"
protobuf = "=2.28.0"
tokio = { version = "=1.54.1", features = ["rt-multi-thread", "macros", "fs", "io-util"] }

[dev-dependencies]
ogg = "=0.7.1"
regex = "=1.13.1"
