[package]
name = "alchemist"
version = "0.1.0"
edition = "2021"
publish = false

[dependencies]
indexmap = { version = "=2.14.2", features = ["serde"] }
regex = "=1.13.1"
unicode-segmentation = "=1.13.3"
toml = "=1.1.7"
serde = { version = "=1.0.229", features = ["derive"] }
clap = { version = "=4.6.7", features = ["derive"] }
clap_complete = "=4.6.11"
colored = "=3.1.1"
owo-colors = "=4.4.0"
terminal_size = "=0.4.4"
