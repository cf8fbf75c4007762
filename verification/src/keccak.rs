use vstd::prelude::*;

use tiny_keccak::Hasher;

use crate::types::{w256_at, W256};

verus! {

/// What Keccak-256 returns on a byte string: a fixed function of the input
/// bytes alone, the same in every process and on every machine.
pub uninterp spec fn keccak_of(s: Seq<u8>) -> Seq<u8>;

/// Relies on tiny_keccak's `Keccak::v256` (Keccak-256): it produces a 32-byte
/// digest that depends on the input bytes alone.
#[verifier::external_body]
pub(crate) fn keccak256(data: &Vec<u8>) -> (r: Vec<u8>)
    ensures
        r@ == keccak_of(data@),
        r@.len() == 32,
{
    let mut k = tiny_keccak::Keccak::v256();
    k.update(data.as_slice());
    let mut out = [0u8; 32];
    k.finalize(&mut out);
    out.to_vec()
}

/// The 4-byte operation selector of an ABI signature: the leading bytes of
/// its Keccak-256 digest.
pub open spec fn selector_of(sig: Seq<u8>) -> Seq<u8> {
    keccak_of(sig).subrange(0, 4)
}

/// The event topic of an ABI signature: its Keccak-256 digest as one word.
pub open spec fn topic_of(sig: Seq<u8>) -> W256 {
    w256_at(keccak_of(sig), 0)
}

/// Computes the 4-byte selector of a signature.
pub(crate) fn selector(sig: &Vec<u8>) -> (r: Vec<u8>)
    ensures
        r@ == selector_of(sig@),
        r@.len() == 4,
{
    let digest: Vec<u8> = keccak256(sig);
    let mut out: Vec<u8> = Vec::new();
    out.push(digest[0]);
    out.push(digest[1]);
    out.push(digest[2]);
    out.push(digest[3]);
    proof {
        assert(out@ =~= selector_of(sig@));
    }
    out
}

/// Computes the event topic of a signature.
pub(crate) fn topic(sig: &Vec<u8>) -> (r: W256)
    ensures
        r == topic_of(sig@),
{
    let digest: Vec<u8> = keccak256(sig);
    crate::types::word_at(&digest, 0)
}

} // verus!
