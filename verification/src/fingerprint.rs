//! Deterministic 64-bit content fingerprints.
//!
//! An entry's identity is a fingerprint of its raw content: the character
//! sequence of a text capture, or the raw pixel bytes of an image capture.
//! The identity doubles as the durable storage key, so the hash must give the
//! same value for the same content in every process run: the algorithm is the
//! fixed FNV-1a fold, never a process-seeded hasher.

use vstd::prelude::*;
use crate::seq_util::lemma_skip_step;
use vstd::string::StrSliceExecFns;

verus! {

/// FNV-1a offset basis for 64-bit hashes.
pub const FNV_OFFSET: u64 = 0xcbf29ce484222325;

/// FNV-1a prime for 64-bit hashes.
pub const FNV_PRIME: u64 = 0x100000001b3;

/// One FNV-1a round: fold the next unit of input into the running hash.
pub open spec fn fnv_step(h: u64, x: u64) -> u64 {
    (((h ^ x) as nat * FNV_PRIME as nat) % 0x10000000000000000) as u64
}

/// The running hash after folding every byte of `s` into `h`, front to back.
pub open spec fn fnv1a_bytes_from(h: u64, s: Seq<u8>) -> u64
    decreases s.len(),
{
    if s.len() == 0 {
        h
    } else {
        fnv1a_bytes_from(fnv_step(h, s[0] as u64), s.drop_first())
    }
}

/// The fingerprint of a byte payload (an image's raw pixel bytes).
pub open spec fn fingerprint_of_bytes(s: Seq<u8>) -> u64 {
    fnv1a_bytes_from(FNV_OFFSET, s)
}

/// The running hash after folding every character of `s` into `h`.
pub open spec fn fnv1a_chars_from(h: u64, s: Seq<char>) -> u64
    decreases s.len(),
{
    if s.len() == 0 {
        h
    } else {
        fnv1a_chars_from(fnv_step(h, (s[0] as u32) as u64), s.drop_first())
    }
}

/// The fingerprint of a text payload (its Unicode scalar values).
pub open spec fn fingerprint_of_text(s: Seq<char>) -> u64 {
    fnv1a_chars_from(FNV_OFFSET, s)
}

/// Computes the fingerprint of a byte payload.
pub fn fingerprint_bytes(bytes: &Vec<u8>) -> (r: u64)
    ensures
        r == fingerprint_of_bytes(bytes@),
{
    let mut h: u64 = FNV_OFFSET;
    let mut i: usize = 0;
    proof {
        assert(bytes@.skip(0) =~= bytes@);
    }
    while i < bytes.len()
        invariant
            0 <= i <= bytes@.len(),
            fingerprint_of_bytes(bytes@) == fnv1a_bytes_from(h, bytes@.skip(i as int)),
        decreases bytes@.len() - i,
    {
        proof {
            lemma_skip_step(bytes@, i as int);
        }
        h = (h ^ (bytes[i] as u64)).wrapping_mul(FNV_PRIME);
        i = i + 1;
    }
    proof {
        assert(bytes@.skip(bytes@.len() as int) =~= Seq::<u8>::empty());
    }
    h
}

/// Computes the fingerprint of a text payload.
pub fn fingerprint_text(s: &str) -> (r: u64)
    ensures
        r == fingerprint_of_text(s@),
{
    let n = s.unicode_len();
    let mut h: u64 = FNV_OFFSET;
    let mut i: usize = 0;
    proof {
        assert(s@.skip(0) =~= s@);
    }
    while i < n
        invariant
            0 <= i <= s@.len(),
            n == s@.len(),
            fingerprint_of_text(s@) == fnv1a_chars_from(h, s@.skip(i as int)),
        decreases s@.len() - i,
    {
        proof {
            lemma_skip_step(s@, i as int);
        }
        let c = s.get_char(i);
        h = (h ^ ((c as u32) as u64)).wrapping_mul(FNV_PRIME);
        i = i + 1;
    }
    proof {
        assert(s@.skip(s@.len() as int) =~= Seq::<char>::empty());
    }
    h
}

} // verus!
