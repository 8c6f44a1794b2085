# dsn_cli

A command-line client for the Subspace distributed storage network (DSN): it connects to a
node's RPC endpoint, joins the DSN with an identity derived from the farmer's key, and offers
an interactive prompt (`show listeners`, `show connected_peers`, `show connected_servers`,
`download <piece index>`, `exit`/`quit`).

- `src/` is the library, verified with Verus:
  - `text`: prefix tests, repeated prefix removal and `u64` parsing over characters;
  - `cli`: the prompt's command parser and the loop's decisions for each read outcome;
  - `network`: default networking arguments, bootstrap-node choice, networking settings;
  - `hex_text`: lower-case hex rendering of the genesis hash (the protocol prefix);
  - `keys`: the libp2p Ed25519 keypair of a Schnorrkel secret key given by its 64 bytes:
    the Ed25519 keypair whose secret is the key's scalar times the cofactor 8, as stated
    by `derive_libp2p_keypair`'s contract over `ed25519_keypair_of_seed` (a name for what
    `libp2p_identity::Keypair::ed25519_from_bytes` builds);
  - `rpc`: parameters of the RPC connection.
- `app/` is the program around it: argument parsing, logging, RPC, the networking stack,
  threads and signals. It does not build here: the Subspace crates it calls
  (`subspace-networking`, `subspace-core-primitives`, `subspace-rpc-primitives`,
  `sc-subspace-chain-specs`) are not in the crate registry available to this project, and
  `sc-chain-spec` was left out for its size. `app/identity.rs` is a minimal identity store of
  this project's own (a 32-byte Schnorrkel mini secret key in `identity.bin`).
- `tests/` exercises the library on concrete values.
