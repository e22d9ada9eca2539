[package]
name = "rpg_engine"
version = "0.1.0"
edition = "2021"
publish = false

[dependencies]
pathfinding = "=4.16.0"
rand = "=0.8.8"
rand_pcg = "=0.3.1"
serde = { version = "=1.0.229", features = ["derive"] }
bincode = "=1.3.3"
serde_json = "=1.0.154"
macroquad = "=0.4.16"
postgres = { version = "0.19", features = ["with-serde_json-1"] }
gltf = "1"
