//! Parameters of the WebSocket RPC connection to the node.

use vstd::prelude::*;

verus! {

/// Largest request, in bytes, that the RPC client sends: 20 MiB.
pub const MAX_REQUEST_SIZE: u32 = 20 * 1024 * 1024;

/// The RPC method that returns the farmer application info (genesis hash, bootstrap
/// nodes, ...).
pub const FARMER_APP_INFO_METHOD: &'static str = "subspace_getFarmerAppInfo";

/// Default WebSocket URL of the node's RPC endpoint.
pub const DEFAULT_NODE_RPC_URL: &'static str = "ws://127.0.0.1:9944";

} // verus!
