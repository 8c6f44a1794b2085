//! Derivation of the networking identity (a libp2p Ed25519 keypair) from the farmer's
//! Schnorrkel secret key, given as its 64 canonical bytes (`schnorrkel::SecretKey::to_bytes`:
//! the 32-byte secret scalar, then the 32-byte nonce seed).

use vstd::prelude::*;

verus! {

#[verifier::external_type_specification]
#[verifier::external_body]
pub struct ExKeypair(libp2p_identity::Keypair);

#[verifier::external_type_specification]
#[verifier::external_body]
pub struct ExDecodingError(libp2p_identity::DecodingError);

/// `n` zero bytes.
pub open spec fn zeros(n: nat) -> Seq<u8> {
    Seq::new(n, |i: int| 0u8)
}

/// Calls `zeroize::Zeroize::zeroize` on a byte array, which overwrites every byte with 0.
#[verifier::external_body]
fn zeroize_bytes(bytes: &mut [u8; 64])
    ensures
        final(bytes)@ == zeros(64),
{
    zeroize::Zeroize::zeroize(bytes)
}

/// The libp2p keypair whose Ed25519 secret key is the 32-byte `seed`. It is a function
/// of the seed alone: the keypair is the seed and the public key computed from it.
pub uninterp spec fn ed25519_keypair_of_seed(seed: Seq<u8>) -> libp2p_identity::Keypair;

/// Calls `libp2p_identity::Keypair::ed25519_from_bytes`, which builds the Ed25519 keypair
/// whose secret key is the given bytes. It accepts exactly 32 bytes (so always succeeds
/// here) and zeroizes its input.
#[verifier::external_body]
fn keypair_from_ed25519_seed(
    seed: &mut [u8; 32],
) -> (res: Result<libp2p_identity::Keypair, libp2p_identity::DecodingError>)
    ensures
        res == Ok::<libp2p_identity::Keypair, libp2p_identity::DecodingError>(
            ed25519_keypair_of_seed(old(seed)@),
        ),
        final(seed)@ == zeros(32),
{
    libp2p_identity::Keypair::ed25519_from_bytes(seed)
}

/// The Ed25519 secret key seed within an expanded secret key: its first 32 bytes.
pub fn ed25519_secret_seed(expanded: &[u8; 64]) -> (seed: [u8; 32])
    ensures
        seed@ == expanded@.take(32),
{
    let mut seed = [0u8; 32];
    let mut i: usize = 0;
    while i < 32
        invariant
            i <= 32,
            seed@.len() == 32,
            forall|j: int| 0 <= j < i ==> seed@[j] == expanded@[j],
        decreases 32 - i,
    {
        seed[i] = expanded[i];
        i = i + 1;
    }
    assert(seed@ =~= expanded@.take(32));
    seed
}

/// Builds the libp2p keypair whose Ed25519 secret key is the first 32 bytes of an expanded
/// secret key, and wipes the expanded key and every copy of the secret taken on the way.
pub fn libp2p_keypair_from_ed25519_bytes(expanded: &mut [u8; 64]) -> (kp: libp2p_identity::Keypair)
    ensures
        kp == ed25519_keypair_of_seed(old(expanded)@.take(32)),
        final(expanded)@ == zeros(64),
{
    let mut seed = ed25519_secret_seed(expanded);
    zeroize_bytes(expanded);
    match keypair_from_ed25519_seed(&mut seed) {
        Ok(kp) => kp,
        Err(_) => unreached(),
    }
}

/// A little-endian 256-bit scalar times the cofactor 8, truncated to 256 bits: every byte
/// shifted left by three bits, taking in the top three bits of the byte below it.
pub open spec fn cofactor_times(key: Seq<u8>) -> Seq<u8> {
    Seq::new(
        key.len(),
        |i: int|
            if i == 0 {
                key[0] << 3u8
            } else {
                (key[i] << 3u8) | (key[i - 1] >> 5u8)
            },
    )
}

/// The Ed25519 expanded secret key of a Schnorrkel secret key (`SecretKey::to_ed25519_bytes`):
/// its scalar times the cofactor, then its nonce seed unchanged.
pub open spec fn ed25519_expanded(secret: Seq<u8>) -> Seq<u8> {
    cofactor_times(secret.take(32)) + secret.skip(32)
}

/// The libp2p keypair of a Schnorrkel secret key: the Ed25519 keypair whose secret key is
/// the first half of the key's Ed25519 expanded form.
pub open spec fn derived_keypair(secret: Seq<u8>) -> libp2p_identity::Keypair {
    ed25519_keypair_of_seed(ed25519_expanded(secret).take(32))
}

/// Multiplies a little-endian 256-bit scalar by the cofactor 8, modulo 2^256
/// (schnorrkel's `multiply_scalar_bytes_by_cofactor`).
pub fn multiply_by_cofactor(key: &[u8; 32]) -> (res: [u8; 32])
    ensures
        res@ == cofactor_times(key@),
{
    let mut res = [0u8; 32];
    let mut high: u8 = 0;
    let mut i: usize = 0;
    while i < 32
        invariant
            i <= 32,
            res@.len() == 32,
            key@.len() == 32,
            i == 0 ==> high == 0,
            i > 0 ==> high == key@[i - 1] >> 5u8,
            forall|j: int| 0 <= j < i ==> res@[j] == cofactor_times(key@)[j],
        decreases 32 - i,
    {
        let b = key[i];
        proof {
            if i == 0 {
                assert((b << 3u8) | 0u8 == b << 3u8) by (bit_vector);
            }
        }
        res[i] = (b << 3u8) | high;
        high = b >> 5u8;
        i = i + 1;
    }
    assert(res@ =~= cofactor_times(key@));
    res
}

/// The Ed25519 expanded secret key of a Schnorrkel secret key given by its 64 bytes
/// (`schnorrkel::SecretKey::to_ed25519_bytes`).
pub fn ed25519_expanded_bytes(secret: &[u8; 64]) -> (res: [u8; 64])
    ensures
        res@ == ed25519_expanded(secret@),
{
    let mut scalar = [0u8; 32];
    let mut i: usize = 0;
    while i < 32
        invariant
            i <= 32,
            scalar@.len() == 32,
            forall|j: int| 0 <= j < i ==> scalar@[j] == secret@[j],
        decreases 32 - i,
    {
        scalar[i] = secret[i];
        i = i + 1;
    }
    assert(scalar@ =~= secret@.take(32));
    let shifted = multiply_by_cofactor(&scalar);
    let mut res = [0u8; 64];
    let mut k: usize = 0;
    while k < 64
        invariant
            k <= 64,
            res@.len() == 64,
            shifted@ == cofactor_times(secret@.take(32)),
            forall|j: int| 0 <= j < k ==> res@[j] == ed25519_expanded(secret@)[j],
        decreases 64 - k,
    {
        if k < 32 {
            res[k] = shifted[k];
        } else {
            res[k] = secret[k];
        }
        k = k + 1;
    }
    assert(res@ =~= ed25519_expanded(secret@));
    res
}

/// Derives the libp2p networking keypair from a Schnorrkel secret key given by its 64
/// bytes: the Ed25519 keypair whose secret key is the first half of the key's Ed25519
/// expanded form. Never panics; the intermediate secret bytes are wiped.
pub fn derive_libp2p_keypair(secret: &[u8; 64]) -> (kp: libp2p_identity::Keypair)
    ensures
        kp == derived_keypair(secret@),
{
    let mut expanded = ed25519_expanded_bytes(secret);
    libp2p_keypair_from_ed25519_bytes(&mut expanded)
}

/// The networking identity depends on the Schnorrkel key's secret scalar alone: keys with
/// the same first 32 bytes (whatever their nonce seeds) give the same keypair, so one key
/// always gives one identity.
pub proof fn lemma_derived_keypair_depends_on_scalar(a: Seq<u8>, b: Seq<u8>)
    requires
        a.len() == 64,
        b.len() == 64,
        a.take(32) == b.take(32),
    ensures
        derived_keypair(a) == derived_keypair(b),
{
    assert(ed25519_expanded(a).take(32) =~= cofactor_times(a.take(32)));
    assert(ed25519_expanded(b).take(32) =~= cofactor_times(b.take(32)));
}

} // verus!
