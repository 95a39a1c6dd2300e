[package]
name = "query_planner"
version = "0.1.0"
edition = "2021"
publish = false

[dependencies]
smallvec = "1"
itertools = "0.10"
thiserror = "1"
serde = { version = "1", features = ["derive"] }
probability = "*"
float-ord = "0.3"
num-traits = "0.2"
