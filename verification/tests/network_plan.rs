use dsn_cli::hex_text::protocol_prefix;
use dsn_cli::network::{
    default_listen_on, plan_network, KademliaMode, select_bootstrap_nodes, NetworkArgs, DEFAULT_IN_CONNECTIONS,
    DEFAULT_LISTEN_PORT, KNOWN_PEERS_CACHE_SIZE, KNOWN_PEERS_FILE,
};

#[test]
fn protocol_prefix_is_lower_hex() {
    assert_eq!(protocol_prefix(&[1, 2, 3, 15, 16]), "0102030f10");
    assert_eq!(protocol_prefix(b"Hello world!"), "48656c6c6f20776f726c6421");
    assert_eq!(protocol_prefix(&[]), "");
    let hash = [0xabu8; 32];
    let prefix = protocol_prefix(&hash);
    assert_eq!(prefix.len(), 64);
    assert_eq!(prefix, "ab".repeat(32));
}

#[test]
fn configured_bootstrap_nodes_win() {
    let configured = vec!["/ip4/1.2.3.4/tcp/1".to_string()];
    let advertised = vec!["/ip4/5.6.7.8/tcp/2".to_string(), "/dns/x/tcp/3".to_string()];
    assert_eq!(
        select_bootstrap_nodes(configured.clone(), advertised.clone()),
        configured
    );
}

#[test]
fn advertised_bootstrap_nodes_when_none_configured() {
    let advertised = vec!["/ip4/5.6.7.8/tcp/2".to_string()];
    assert_eq!(select_bootstrap_nodes(Vec::new(), advertised.clone()), advertised);
}

#[test]
fn default_arguments() {
    let args = NetworkArgs::default();
    assert!(args.bootstrap_nodes.is_empty());
    assert_eq!(
        args.listen_on,
        vec![
            format!("/ip4/0.0.0.0/tcp/{DEFAULT_LISTEN_PORT}"),
            format!("/ip6/::/tcp/{DEFAULT_LISTEN_PORT}")
        ]
    );
    assert_eq!(default_listen_on(), args.listen_on);
    assert!(!args.allow_private_ips);
    assert!(args.reserved_peers.is_empty());
    assert_eq!(args.in_connections, 300);
    assert_eq!(DEFAULT_IN_CONNECTIONS, 300);
    assert_eq!(args.out_connections, 100);
    assert_eq!(args.pending_in_connections, 100);
    assert_eq!(args.pending_out_connections, 100);
    assert!(args.external_addresses.is_empty());
}

#[test]
fn plan_carries_arguments() {
    let args = NetworkArgs {
        bootstrap_nodes: vec!["/ip4/1.1.1.1/tcp/1".to_string()],
        listen_on: vec!["/ip4/0.0.0.0/tcp/9".to_string()],
        allow_private_ips: true,
        reserved_peers: vec!["/ip4/2.2.2.2/tcp/2".to_string()],
        in_connections: 11,
        out_connections: 12,
        pending_in_connections: 13,
        pending_out_connections: 14,
        external_addresses: vec!["/ip4/3.3.3.3/tcp/3".to_string()],
    };
    let plan = plan_network("abcd".to_string(), args);
    assert_eq!(plan.protocol_prefix, "abcd");
    assert_eq!(plan.known_peers_file, "known_addresses.bin");
    assert_eq!(plan.known_peers_file, KNOWN_PEERS_FILE);
    assert_eq!(plan.known_peers_cache_size, 100);
    assert_eq!(KNOWN_PEERS_CACHE_SIZE, 100);
    assert_eq!(plan.bootstrap_addresses, vec!["/ip4/1.1.1.1/tcp/1".to_string()]);
    assert_eq!(plan.listen_on, vec!["/ip4/0.0.0.0/tcp/9".to_string()]);
    assert!(plan.allow_non_global_addresses_in_dht);
    assert_eq!(plan.reserved_peers, vec!["/ip4/2.2.2.2/tcp/2".to_string()]);
    assert_eq!(plan.max_established_incoming_connections, 11);
    assert_eq!(plan.max_established_outgoing_connections, 12);
    assert_eq!(plan.max_pending_incoming_connections, 13);
    assert_eq!(plan.max_pending_outgoing_connections, 14);
    assert_eq!(plan.kademlia_mode, KademliaMode::Dynamic);
    assert_eq!(plan.external_addresses, vec!["/ip4/3.3.3.3/tcp/3".to_string()]);
}
