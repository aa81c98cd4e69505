[package]
name = "kernel"
version = "0.1.0"
edition = "2021"
publish = false

[dependencies]
conquer-once = "=0.4.0"
pic8259 = "=0.11.0"
spin = "=0.12.3"
static-alloc = "=0.3.2"
structopt = "=0.3.26"
x86_64 = { version = "=0.14.13", default-features = false, features = ["instructions"] }
