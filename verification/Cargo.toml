[package]
name = "zk_light_client"
version = "0.1.0"
edition = "2021"
publish = false

[dependencies]
sha2 = "=0.10.9"
crypto-bigint = "=0.5.5"
ibc-core-commitment-types = "=0.57.0"
ibc-core-host-types = "=0.57.0"
ibc-proto = "=0.51.1"
tendermint = "=0.40.4"
tendermint-light-client-verifier = "=0.40.4"
prost = "=0.13.5"
bincode = { version = "=2.0.1", features = ["derive", "serde"] }
serde = { version = "=1.0.229", features = ["derive"] }
serde_cbor = "=0.11.2"
ark-bn254 = "=0.5.0"
ark-groth16 = "=0.5.0"
ark-serialize = "=0.5.0"
sp1-verifier = { version = "=5.2.4", features = ["ark"] }
bitcoin = "=0.32.102"
bitcoincore-rpc = "0.19"
anyhow = "=1.0.104"
thiserror = "=1.0.69"
clap = { version = "=4.6.7", features = ["derive", "env"] }
strum = { version = "=0.26.3", features = ["derive"] }
tracing = "=0.1.44"
tracing-subscriber = { version = "=0.3.23", features = ["env-filter"] }
directories = "=5.0.1"

[dev-dependencies]
tendermint-testgen = "0.40"
