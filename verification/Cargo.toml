[package]
name = "tap-query"
version = "0.1.0"
edition = "2021"
rust-version = "1.85"
publish = false

[dependencies]
# What the library and the code around it call.
anyhow = "=1.0.104"
base64 = "=0.22.1"
prost = "=0.13.5"
reqwest = { version = "=0.12.28", default-features = false, features = ["default-tls"] }
tap_graph = { version = "=0.3.5", default-features = false, features = ["v2"] }
thegraph-core = { version = "=0.15.2", default-features = false }
tokio = { version = "=1.54.1", default-features = false, features = ["rt"] }

# Called by nothing here. `thegraph-core` lets these float, and newer releases of some of them no
# longer build together with the alloy release that it names; each line holds one of them at a
# version that does, or keeps a second copy of it out of the tree.
alloy-primitives = { version = "=1.1.3", default-features = false }
alloy-rpc-types-any = { version = "=1.0.9", default-features = false }
alloy-sol-type-parser = { version = "=1.1.3", default-features = false }
alloy-transport-http = { version = "=1.0.9", default-features = false }
ruint = { version = "=1.14.0", default-features = false }
serde = { version = "=1.0.219", default-features = false }
serde_with = { version = "=3.11.0", default-features = false }
syn-solidity = { version = "=1.1.3", default-features = false }
tempfile = { version = "=3.20.0", default-features = false }
