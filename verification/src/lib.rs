//! Verified core of a command-line client for the Subspace distributed storage network:
//! interactive command parsing, network configuration planning, key derivation and
//! the hex rendering of the genesis hash used as the network protocol prefix.

pub mod cli;
pub mod hex_text;
pub mod keys;
pub mod network;
pub mod rpc;
pub mod text;

