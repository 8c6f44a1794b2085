//! The networking decisions of the client: its default arguments, which bootstrap nodes
//! it dials, and the settings of the networking stack derived from its arguments.
//! Addresses are multiaddrs in their text form (such as `/ip4/0.0.0.0/tcp/30533`).

use vstd::prelude::*;

verus! {

/// Port of the default listening addresses.
pub const DEFAULT_LISTEN_PORT: u16 = 30533;

/// Default limit of established incoming connections.
pub const DEFAULT_IN_CONNECTIONS: u32 = 300;

/// Default limit of established outgoing connections.
pub const DEFAULT_OUT_CONNECTIONS: u32 = 100;

/// Default limit of pending incoming connections.
pub const DEFAULT_PENDING_IN_CONNECTIONS: u32 = 100;

/// Default limit of pending outgoing connections.
pub const DEFAULT_PENDING_OUT_CONNECTIONS: u32 = 100;

/// File, under the base path, where known peer addresses are kept.
pub const KNOWN_PEERS_FILE: &'static str = "known_addresses.bin";

/// Number of known peers kept in the known-peers cache.
pub const KNOWN_PEERS_CACHE_SIZE: u32 = 100;

/// Arguments of the networking stack.
pub struct NetworkArgs {
    /// Bootstrap nodes to connect to on startup.
    pub bootstrap_nodes: Vec<String>,
    /// Addresses to listen on.
    pub listen_on: Vec<String>,
    /// Admit non-global (private, shared, loopback) addresses into the DHT.
    pub allow_private_ips: bool,
    /// Reserved nodes to keep a connection to.
    pub reserved_peers: Vec<String>,
    /// Limit of established incoming connections.
    pub in_connections: u32,
    /// Limit of established outgoing connections.
    pub out_connections: u32,
    /// Limit of pending incoming connections.
    pub pending_in_connections: u32,
    /// Limit of pending outgoing connections.
    pub pending_out_connections: u32,
    /// Known external addresses.
    pub external_addresses: Vec<String>,
}

/// The default listening addresses: every IPv4 and every IPv6 interface, TCP port 30533.
pub fn default_listen_on() -> (res: Vec<String>)
    ensures
        res@.len() == 2,
        res@[0]@ == "/ip4/0.0.0.0/tcp/30533"@,
        res@[1]@ == "/ip6/::/tcp/30533"@,
{
    let mut res: Vec<String> = Vec::new();
    res.push("/ip4/0.0.0.0/tcp/30533".to_owned());
    res.push("/ip6/::/tcp/30533".to_owned());
    res
}

impl Default for NetworkArgs {
    /// The arguments when none are given on the command line.
    fn default() -> (res: Self)
        ensures
            res.bootstrap_nodes@.len() == 0,
            res.listen_on@.len() == 2,
            res.listen_on@[0]@ == "/ip4/0.0.0.0/tcp/30533"@,
            res.listen_on@[1]@ == "/ip6/::/tcp/30533"@,
            !res.allow_private_ips,
            res.reserved_peers@.len() == 0,
            res.in_connections == DEFAULT_IN_CONNECTIONS,
            res.out_connections == DEFAULT_OUT_CONNECTIONS,
            res.pending_in_connections == DEFAULT_PENDING_IN_CONNECTIONS,
            res.pending_out_connections == DEFAULT_PENDING_OUT_CONNECTIONS,
            res.external_addresses@.len() == 0,
    {
        NetworkArgs {
            bootstrap_nodes: Vec::new(),
            listen_on: default_listen_on(),
            allow_private_ips: false,
            reserved_peers: Vec::new(),
            in_connections: DEFAULT_IN_CONNECTIONS,
            out_connections: DEFAULT_OUT_CONNECTIONS,
            pending_in_connections: DEFAULT_PENDING_IN_CONNECTIONS,
            pending_out_connections: DEFAULT_PENDING_OUT_CONNECTIONS,
            external_addresses: Vec::new(),
        }
    }
}

/// The bootstrap nodes that are dialed: those given on the command line, or, when none
/// were given, those that the node advertises.
pub open spec fn chosen_bootstrap_nodes<T>(configured: Seq<T>, advertised: Seq<T>) -> Seq<T> {
    if configured.len() == 0 {
        advertised
    } else {
        configured
    }
}

/// Picks the bootstrap nodes: the configured ones, unless there are none, in which case
/// those that the node advertises.
pub fn select_bootstrap_nodes<T>(configured: Vec<T>, advertised: Vec<T>) -> (res: Vec<T>)
    ensures
        res@ == chosen_bootstrap_nodes(configured@, advertised@),
        configured@.len() > 0 ==> res@ == configured@,
        configured@.len() == 0 ==> res@ == advertised@,
{
    if configured.len() == 0 {
        advertised
    } else {
        configured
    }
}

/// Bootstrap nodes given on the command line, however many, are dialed exactly as given:
/// the node's advertised ones never replace or join them.
pub proof fn lemma_configured_bootstrap_nodes_kept<T>(configured: Seq<T>, advertised: Seq<T>)
    requires
        configured.len() > 0,
    ensures
        chosen_bootstrap_nodes(configured, advertised) == configured,
{
}

/// With no bootstrap nodes on the command line, exactly the node's advertised ones are
/// dialed.
pub proof fn lemma_advertised_bootstrap_nodes_fill_in<T>(configured: Seq<T>, advertised: Seq<T>)
    requires
        configured.len() == 0,
    ensures
        chosen_bootstrap_nodes(configured, advertised) == advertised,
{
}

/// How the node takes part in the Kademlia DHT.
#[derive(PartialEq, Eq, Structural, Clone, Copy, Debug)]
pub enum KademliaMode {
    /// Always as a client: it queries the DHT but does not answer queries.
    Client,
    /// Always as a server: it queries the DHT and answers queries.
    Server,
    /// Switching between client and server depending on whether it is reachable.
    Dynamic,
}

/// Settings of the networking stack.
pub struct NetworkPlan {
    /// Prefix of the names of the request-response protocols.
    pub protocol_prefix: String,
    /// File, under the base path, of the known-peers registry.
    pub known_peers_file: String,
    /// Size of the known-peers cache.
    pub known_peers_cache_size: u32,
    /// Reserved peers.
    pub reserved_peers: Vec<String>,
    /// Listening addresses.
    pub listen_on: Vec<String>,
    /// Whether non-global addresses are admitted into the DHT.
    pub allow_non_global_addresses_in_dht: bool,
    /// Limit of established outgoing connections.
    pub max_established_outgoing_connections: u32,
    /// Limit of pending outgoing connections.
    pub max_pending_outgoing_connections: u32,
    /// Limit of established incoming connections.
    pub max_established_incoming_connections: u32,
    /// Limit of pending incoming connections.
    pub max_pending_incoming_connections: u32,
    /// Bootstrap addresses; their peer ids are also left out of the known-peers list.
    pub bootstrap_addresses: Vec<String>,
    /// How the node takes part in the Kademlia DHT.
    pub kademlia_mode: KademliaMode,
    /// Known external addresses.
    pub external_addresses: Vec<String>,
}

/// Derives the settings of the networking stack from the protocol prefix and the
/// networking arguments.
pub fn plan_network(protocol_prefix: String, args: NetworkArgs) -> (plan: NetworkPlan)
    ensures
        plan.protocol_prefix@ == protocol_prefix@,
        plan.known_peers_file@ == KNOWN_PEERS_FILE@,
        plan.known_peers_cache_size == KNOWN_PEERS_CACHE_SIZE,
        plan.reserved_peers@ == args.reserved_peers@,
        plan.listen_on@ == args.listen_on@,
        plan.allow_non_global_addresses_in_dht == args.allow_private_ips,
        plan.max_established_outgoing_connections == args.out_connections,
        plan.max_pending_outgoing_connections == args.pending_out_connections,
        plan.max_established_incoming_connections == args.in_connections,
        plan.max_pending_incoming_connections == args.pending_in_connections,
        plan.bootstrap_addresses@ == args.bootstrap_nodes@,
        plan.kademlia_mode == KademliaMode::Dynamic,
        plan.external_addresses@ == args.external_addresses@,
{
    let NetworkArgs {
        bootstrap_nodes,
        listen_on,
        allow_private_ips,
        reserved_peers,
        in_connections,
        out_connections,
        pending_in_connections,
        pending_out_connections,
        external_addresses,
    } = args;
    NetworkPlan {
        protocol_prefix,
        known_peers_file: KNOWN_PEERS_FILE.to_owned(),
        known_peers_cache_size: KNOWN_PEERS_CACHE_SIZE,
        reserved_peers,
        listen_on,
        allow_non_global_addresses_in_dht: allow_private_ips,
        max_established_outgoing_connections: out_connections,
        max_pending_outgoing_connections: pending_out_connections,
        max_established_incoming_connections: in_connections,
        max_pending_incoming_connections: pending_in_connections,
        bootstrap_addresses: bootstrap_nodes,
        kademlia_mode: KademliaMode::Dynamic,
        external_addresses,
    }
}

} // verus!
