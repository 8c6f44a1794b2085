use dsn_cli::keys::{
    derive_libp2p_keypair, ed25519_expanded_bytes, ed25519_secret_seed,
    libp2p_keypair_from_ed25519_bytes, multiply_by_cofactor,
};
use libp2p_identity::{ed25519, Keypair};
use schnorrkel::{ExpansionMode, MiniSecretKey};

fn expected_keypair(seed: &[u8; 32]) -> Keypair {
    let mut bytes = *seed;
    Keypair::from(ed25519::Keypair::from(
        ed25519::SecretKey::try_from_bytes(&mut bytes).unwrap(),
    ))
}

fn sample_expanded() -> [u8; 64] {
    let mut expanded = [0u8; 64];
    for (i, b) in expanded.iter_mut().enumerate() {
        *b = (i as u8).wrapping_mul(37).wrapping_add(5);
    }
    expanded
}

#[test]
fn seed_is_first_half() {
    let expanded = sample_expanded();
    let seed = ed25519_secret_seed(&expanded);
    assert_eq!(&seed[..], &expanded[..32]);
}

#[test]
fn keypair_from_expanded_bytes() {
    let mut expanded = sample_expanded();
    let mut seed = [0u8; 32];
    seed.copy_from_slice(&expanded[..32]);
    let keypair = libp2p_keypair_from_ed25519_bytes(&mut expanded);
    assert_eq!(expanded, [0u8; 64]);
    assert_eq!(keypair.public(), expected_keypair(&seed).public());
    let other = {
        let mut s = seed;
        s[0] ^= 1;
        expected_keypair(&s)
    };
    assert_ne!(keypair.public(), other.public());
}

fn sample_key(fill: u8) -> schnorrkel::SecretKey {
    let mini = MiniSecretKey::from_bytes(&[fill; 32]).unwrap();
    mini.expand(ExpansionMode::Ed25519)
}

#[test]
fn expansion_matches_schnorrkel() {
    for fill in [0u8, 1, 7, 0x5a, 0xff] {
        for mode in [ExpansionMode::Ed25519, ExpansionMode::Uniform] {
            let secret = MiniSecretKey::from_bytes(&[fill; 32]).unwrap().expand(mode);
            assert_eq!(ed25519_expanded_bytes(&secret.to_bytes()), secret.to_ed25519_bytes());
        }
    }
}

#[test]
fn cofactor_multiplication() {
    let mut one = [0u8; 32];
    one[0] = 1;
    let mut eight = [0u8; 32];
    eight[0] = 8;
    assert_eq!(multiply_by_cofactor(&one), eight);
    let mut carry = [0u8; 32];
    carry[0] = 0xe0;
    let mut carried = [0u8; 32];
    carried[1] = 7;
    assert_eq!(multiply_by_cofactor(&carry), carried);
    let mut top = [0u8; 32];
    top[31] = 0xff;
    let mut wrapped = [0u8; 32];
    wrapped[31] = 0xf8;
    assert_eq!(multiply_by_cofactor(&top), wrapped);
}

#[test]
fn keypair_from_schnorrkel_key() {
    let secret = sample_key(7);
    let expanded = secret.to_ed25519_bytes();
    let mut seed = [0u8; 32];
    seed.copy_from_slice(&expanded[..32]);
    let keypair = derive_libp2p_keypair(&secret.to_bytes());
    assert_eq!(keypair.public(), expected_keypair(&seed).public());
    let again = derive_libp2p_keypair(&secret.to_bytes());
    assert_eq!(keypair.public(), again.public());
    let other = derive_libp2p_keypair(&sample_key(8).to_bytes());
    assert_ne!(keypair.public(), other.public());
}

#[test]
fn identity_ignores_nonce_seed() {
    let mut a = sample_key(3).to_bytes();
    let b = a;
    for byte in a[32..].iter_mut() {
        *byte ^= 0xff;
    }
    assert_eq!(
        derive_libp2p_keypair(&a).public(),
        derive_libp2p_keypair(&b).public()
    );
}
