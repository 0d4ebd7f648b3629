[package]
name = "argon"
version = "0.1.0"
edition = "2021"
publish = false

[dependencies]
bimap = "=0.6.3"
petgraph = { version = "=0.8.3", default-features = false }
semver = "=1.0.28"
lenient_semver = "=0.4.2"
url = "=2.5.8"
pulldown-cmark = { version = "=0.13.6", default-features = false }
serde = { version = "=1.0.229", features = ["derive"] }
thiserror = "=2.0.21"
colored = "=3.1.1"
clap = { version = "=4.6.7", features = ["derive"] }
log = "=0.4.35"
simple_logger = "=5.2.0"
json5 = "=1.3.7"
strict-yaml-rust = { version = "=0.2.0", features = ["serde"] }
envy = "=0.4.2"
figment = { version = "=0.10.19", features = ["env"] }
tokio = { version = "=1.54.1", features = ["rt-multi-thread", "macros"] }
glob = "=0.3.4"
encoding = "=0.2.33"
tree-sitter = "=0.27.1"
tree-sitter-c = "=0.24.2"
