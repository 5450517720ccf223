[package]
name = "dice"
version = "0.1.0"
edition = "2021"
publish = false

[dependencies]
allocative = "=0.3.3"
anyhow = "1"
async-trait = "0.1"
clap = "3"
ctor = "0.1"
derive_more = "0.99"
dupe = "0.9"
futures = "0.3"
gazebo = "0.8"
indexmap = "=1.9.3"
itertools = "0.10"
regex = "=1.13.1"
serde = { version = "1", features = ["derive"] }
serde_json = "=1.0.154"
sorted_vector_map = "0.1"
starlark = "=0.12.0"
thiserror = "1"
uuid = { version = "1", features = ["v4"] }
