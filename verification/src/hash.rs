//! The djb2-style hash that tells whether a PAC body changed.

use vstd::prelude::*;

verus! {

/// One round of the hash: `h * 33 + b`, modulo 2^64.
pub open spec fn hash_step(h: u64, b: u8) -> u64 {
    ((h as nat * 33 + b as nat) % 0x1_0000_0000_0000_0000) as u64
}

/// The hash of a byte sequence: starting from 5381, one round per byte.
pub open spec fn hash_bytes(bytes: Seq<u8>) -> u64
    decreases bytes.len(),
{
    if bytes.len() == 0 {
        5381
    } else {
        hash_step(hash_bytes(bytes.drop_last()), bytes.last())
    }
}

/// The hash of the UTF-8 bytes of `s`.
pub fn simple_hash(s: &str) -> (h: u64)
    ensures
        h == hash_bytes(vstd::utf8::encode_utf8(s@)),
{
    let bytes = s.as_bytes();
    let mut h: u64 = 5381;
    let mut i: usize = 0;
    while i < bytes.len()
        invariant
            i <= bytes@.len(),
            h == hash_bytes(bytes@.take(i as int)),
        decreases bytes@.len() - i,
    {
        let b = bytes[i];
        proof {
            assert(bytes@.take(i + 1).drop_last() == bytes@.take(i as int));
            let m = h.wrapping_mul(33);
            assert(m == (h as nat * 33) % 0x1_0000_0000_0000_0000);
            vstd::arithmetic::div_mod::lemma_add_mod_noop(
                h as int * 33,
                b as int,
                0x1_0000_0000_0000_0000,
            );
            vstd::arithmetic::div_mod::lemma_mod_twice(b as int, 0x1_0000_0000_0000_0000);
        }
        h = h.wrapping_mul(33).wrapping_add(b as u64);
        i += 1;
    }
    assert(bytes@.take(bytes@.len() as int) == bytes@);
    h
}

} // verus!
