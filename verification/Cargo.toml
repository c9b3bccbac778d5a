[package]
name = "fibers"
version = "0.1.0"
edition = "2021"
publish = false

[dependencies]
futures = "=0.1.31"
futures-executor = { version = "=0.3.34", features = ["thread-pool"] }
mio = "=0.6.23"
num_cpus = "=1.17.0"
splay_tree = "=0.5.0"
