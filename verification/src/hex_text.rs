//! Lower-case hexadecimal rendering of byte strings.

use vstd::prelude::*;

verus! {

/// The lower-case hexadecimal digit for a nibble `n` (`0 <= n < 16`).
pub open spec fn hex_digit(n: int) -> char {
    if n < 10 {
        (48 + n) as char
    } else {
        (87 + n) as char
    }
}

/// Lower-case hex rendering: each byte becomes its high nibble's digit followed by its
/// low nibble's digit.
pub open spec fn hex_lower(data: Seq<u8>) -> Seq<char>
    decreases data.len(),
{
    if data.len() == 0 {
        Seq::empty()
    } else {
        hex_lower(data.drop_last()) + seq![
            hex_digit(data.last() as int / 16),
            hex_digit(data.last() as int % 16),
        ]
    }
}

/// Calls `hex::encode`, which yields two lower-case hex digits per byte, high nibble first
/// (`hex-0.4.3/src/lib.rs`: `BytesToHexChars` over the table `0123456789abcdef`).
#[verifier::external_body]
fn hex_encode(data: &[u8]) -> (res: String)
    ensures
        res@ == hex_lower(data@),
{
    hex::encode(data)
}

/// Renders a genesis hash (any byte string) as the lower-case hex string that names the
/// network protocols of the chain.
pub fn protocol_prefix(genesis_hash: &[u8]) -> (res: String)
    ensures
        res@ == hex_lower(genesis_hash@),
{
    hex_encode(genesis_hash)
}

/// The hex rendering has exactly two characters per byte.
pub proof fn lemma_hex_lower_len(data: Seq<u8>)
    ensures
        hex_lower(data).len() == 2 * data.len(),
    decreases data.len(),
{
    if data.len() > 0 {
        lemma_hex_lower_len(data.drop_last());
    }
}

} // verus!
