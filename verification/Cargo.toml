[package]
name = "consensus_node"
version = "0.1.0"
edition = "2021"
publish = false

[dependencies]
anyhow = "=1.0.104"
async-trait = "=0.1.92"
rand = "0.8"
thiserror = "1"
tracing = "=0.1.44"
vise = "*"
zksync_concurrency = "=0.1.1"
zksync_consensus_crypto = "=0.1.1"
zksync_consensus_roles = "=0.1.1"
zksync_consensus_utils = "=0.1.1"
zksync_protobuf = "=0.1.1"
