//! The identifier hash: 64-bit FNV-1a over a byte string.
//!
//! The hash is used only for identity, never for security. It is stable
//! across runs: equal byte strings give equal hashes on every machine.

use vstd::prelude::*;

verus! {

pub const FNV_OFFSET_BASIS_64: u64 = 0xcbf29ce484222325;

pub const FNV_PRIME_64: u64 = 0x00000100000001B3;

/// One FNV-1a round: fold the next byte into the running hash.
pub open spec fn fnv1a_round(hash: u64, byte: u8) -> u64 {
    mul_wrapped(hash ^ (byte as u64), FNV_PRIME_64)
}

pub open spec fn mul_wrapped(a: u64, b: u64) -> u64 {
    ((a as nat) * (b as nat) % 0x1_0000_0000_0000_0000) as u64
}

/// The FNV-1a hash of the first `n` bytes of `bytes`.
pub open spec fn fnv1a_prefix(bytes: Seq<u8>, n: int) -> u64
    decreases n,
{
    if n <= 0 {
        FNV_OFFSET_BASIS_64
    } else {
        fnv1a_round(fnv1a_prefix(bytes, n - 1), bytes[n - 1])
    }
}

/// The FNV-1a hash of a byte string.
pub open spec fn fnv1a64(bytes: Seq<u8>) -> u64 {
    fnv1a_prefix(bytes, bytes.len() as int)
}

/// Computes the 64-bit FNV-1a hash of `bytes`.
pub fn fnv1a_hash_64(bytes: &[u8]) -> (hash: u64)
    ensures
        hash == fnv1a64(bytes@),
{
    let mut hash = FNV_OFFSET_BASIS_64;
    let mut i: usize = 0;
    let len = bytes.len();

    while i < len
        invariant
            len == bytes@.len(),
            i <= len,
            hash == fnv1a_prefix(bytes@, i as int),
        decreases len - i,
    {
        let b = bytes[i];
        hash = (hash ^ (b as u64)).wrapping_mul(FNV_PRIME_64);
        i = i + 1;
    }
    hash
}

} // verus!
